# domainhdlr

A command-line tool that keeps a list of DuckDNS domains and installs, starts
and stops the executor service that updates them.

- `src/` is the verified library. `domains` adds, deletes and lists domain
  entries; `paths` computes the tool's files and directories as bytes;
  `install` writes the service unit and decides the edit of the shell start-up
  file; `service` decides the steps of start, stop and restart; `proc_info`
  finds the executor in a process table; `logs` lays out the log report;
  `commands` and `entry` hold the command and entry types.
- `app/` is the program: command-line parsing, reading and writing the domain
  list as JSON, the process table, spawning and killing the executor, and the
  file and `systemctl` work of installing.
- `tests/` runs the library on concrete values.

The installer embeds the executor binary from `app/bin/ptech_dns_executor`,
which is built separately.
