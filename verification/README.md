# givc-cli

The command line client of GIVC, the Ghaf inter-VM communication service.

`src/` is the client's decision core, written and proved in Verus. It performs no I/O:

- `command` maps each command of the user to the work it stands for.
- `connection` decides where a command goes, and with which TLS identity.
- `lifecycle` is the state machine of a direct unit start at a VM's agent, with its exit codes.
- `registry` is the state machine of the registration test.
- `locale` recognises locale names, and `locale_settings` reads locale requests.
- `unit`, `watch`, `report` and `text` hold the smaller rules.

`app/` is the program around it: arguments, connections, clock and output.
`tests/` runs the library on concrete values.
