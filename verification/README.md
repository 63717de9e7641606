# branchless_test

Runs a test command on a series of commits and keeps the results, so that a commit whose tree has
been tested is not tested again.

`src/` is the verified library. It decides what happens and what is said of the tests, and does no
outside work:

- `options`: the test command, the directory name derived from it, and the verbosity;
- `status`: what became of a test, which results are recorded, and what a record stands for;
- `describe`: what is shown of a test and of its output;
- `style`: the looks of shown text, and the terminal styles that stand for them;
- `messages`: what is said when a run cannot go on;
- `run`: the course of a run, inside an abort trap;
- `suite`: the course of the tests of a run, their summary and their exit code;
- `test_run`: the course of one test;
- `rerun`: what becomes of tests that are asked for again;
- `trap`: what the abort trap does to a repository;
- `commands`: the decisions of the command line;
- `text`: decimal numbers and lines.

The three courses are given as steps. A step names the outside work that is due, and for each step
there is a function from what came of that work, its event, to the next step. The proof functions
named `law_*` state what holds of every course.

`app/` carries the steps out: it talks to git, the file system, the shell and the terminal.
`tests/` runs the library on concrete values.
