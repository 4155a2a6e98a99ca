# layad

A local HTTP daemon that keeps one Python Laya decision model resident, so repeated predictions
do not pay model load cost. The rules of the daemon are a library verified with Verus; the
process around it is ordinary Rust.

* `src/`: the library. Configuration and the worker's environment (`config`, `environment`), the
  line protocol of the worker (`frame`, `reply`), one worker lifetime as a state machine and what
  holds of every run of it (`session`, `protocol`), admission, startup and the orderly end
  (`worker`, `supervisor`), HTTP answers, request validation and the projection of replies
  (`api`, `predict`), exit codes and the fail-fast policy (`daemon`), and the values that these
  work on (`json`, `codec`, `text`, `time`).
* `app/`: the program. Command line, HTTP server, child process, signals and logging. It tells
  the library what happened and does what the library answers.
* `tests/`: tests of the library.

JSON text is read and written by `serde_json`; the few calls into it, and into the standard
library where it has no specification, are the functions marked `external_body`, each with the
contract that is relied on.

The daemon binds loopback only and refuses any other address: the API is unauthenticated.
