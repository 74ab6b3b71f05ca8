# mtpdb_master

Central orchestrator for MTPDB deployments.

1. Run `mtpdb_master` on any server.
2. `POST /servers` with a remote server's address and SSH credentials. The
   master starts `mtpdb_manager` there, which calls back to
   `POST /internal/register` once it is online.
3. `GET /servers` lists the registered managers and their regions.
4. `POST /databases` with a `server_id` has the manager of that server start a
   new MTPDB instance. `GET /databases`, `GET /databases/:id` and
   `DELETE /databases/:id` list, show and delete instances.

`MASTER_PORT` sets the listen port (default 7000), `MASTER_ADVERTISE_URL` the
URL at which managers reach the master (default: the detected address of this
host, with the listen port).

`src/` holds the library, verified with Verus. `app/` is the service around it:
the HTTP server, the HTTP client and the SSH client. `tests/` runs the library.
