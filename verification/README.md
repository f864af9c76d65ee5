# onetagger-worker

A background worker that tags music with `onetagger-cli`: it takes requests over HTTP, queues
them, and runs the tagger for one job at a time.

* `src/` is the library: how requests are checked, queued and answered, and how jobs are carried
  out one after the other, with contracts that Verus proves.
* `app/` is the process around it: command line, HTTP, file system, child processes, logging.
* `tests/` runs the library, its machines against a file system in memory.

## How the library and the process work together

The library touches nothing. Where decisions and work alternate, it offers a machine with two
methods: `action` names what is to be done next, `step` takes what came of it. The process in
`app/` carries the actions out until the machine is finished. The machines of `intake` and `worker`
also keep the shared queue: each step takes it along.

| module | decides |
|---|---|
| `admission` | whether a request becomes a job, and how it is refused otherwise |
| `intake` | the course of a request: checked, queued, handed over, answered |
| `move_config` | what an autotagger configuration says about moving files |
| `normalize` | what the tagger is given for a requested path |
| `queue` | what clients see of the queue, and how a request is answered once its job waits |
| `command` | how the tagger is called, and what its end means |
| `worker` | when the next job is received, and when the current one is over |
| `job_run` | the course of a job: tagging, moving, cleaning up |
| `single_move`, `tagged_dir`, `destination`, `file_move` | where a tagged single file goes |
| `default_config` | whether a default configuration has to be generated |
| `system` | what holds of requests, queue and worker together |
| `path`, `text`, `ident`, `json` | paths, text, job ids and JSON |

Each machine has a model. For a machine that comes to an end a function `.._verdict` (or
`normalized`) says in one piece what becomes of it, given what the runtime finds, and a proof
function `.._result` shows that a machine that is carried to its end arrives there. Of the worker,
which goes on from job to job, `worker` and `system` state what holds after any events: one job at a
time, in the order in which the jobs were handed over, and clients see which one runs.

## HTTP interface

* `GET /health` answers `ok`.
* `GET /status` answers with the id of the running job and the ids of those that wait.
* `POST /jobs` with `file`, and optionally `config` and `extra_args`, is answered with status 202,
  the job's `id` and its `queue_position`; or with status 400 and an `error`; or, where the worker
  is gone, with status 500.

## What is taken on trust

The contracts of `uuid` (random ids and their text), of `serde_json` (parsing and reading JSON
values), and of `str::trim`, `str::from_utf8` and `String::from_utf8_lossy` are stated, not proved.
Paths are those of Unix: the worker is made for Linux containers and builds for Unix alone.
