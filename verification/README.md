# keeper

A service that collects reports on the execution of cron jobs, through a
mechanism other than mail.

A host enrols with a key.  For each run of a job it then says that the run
started, sends the records of its output, and says that it finished.  The
service keeps one report per host, job and time.  A request can be sent again
without harm; a report that is finished does not change.

- `src/` is the library: it decides what each request does, and every decision
  has a contract that Verus proves.  It reads the clock itself, for the time
  that a new report bears, and performs no other I/O.  A request is a sequence
  of steps, each of which names what is needed from outside (the key store, the
  rules for names, the report store) and goes on from the answer.
  - `auth`: the key in the Authorization header, and whose it is
  - `report`: reports, and what a request does to one
  - `request`: the course of a request about a report
  - `enrol`, `jobs`: the course of an enrolment, and of a request for the
    overview of all jobs
  - `failure`: what a failed request is told
  - `startup`: what the program does, from its options
  - `models`: the bodies that a client writes
  - `laws`: what holds of the service as a whole
  - `overlap`: what holds of requests that overlap
- `tests/` runs the library on concrete requests.
- `app/` is the server around it: HTTP, the files of the two stores, the command
  line.  The rules for the form of keys and names, and the records of output,
  are those of the `keeper_common` crate.
