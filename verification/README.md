# onair

Turns a Philips WiZ bulb red while you are on a Microsoft Teams call.

The library in `src/` holds everything that is decided or computed: reading
presence out of Teams log lines, tailing the log files, the state engine that
drives the light, the WiZ protocol, the stored configuration, the call history
and the answers of the web interface. It is written in Verus, and every function
is proved to meet the contract that it states. The program in `app/` does the
rest: files, sockets, clocks, SQLite and the web server.

| Module | What it holds |
| --- | --- |
| `presence`, `pattern`, `watcher`, `lines`, `positions`, `paths` | presence in log lines, tailing of log files |
| `state`, `events`, `monitor`, `cycle` | the live state, the event log, calls and the grace timer, the monitor's cycle |
| `commands`, `search`, `first_run` | commands to the bulb, finding it, the first run |
| `bulb`, `json`, `net` | requests, replies and addresses of WiZ bulbs |
| `config`, `settings`, `models` | the configuration, its stored form and its updates |
| `calls`, `clock` | the call history and points in time |
| `web`, `autostart`, `platform` | the web interface, running on login, the operating systems |
| `text` | characters, numbers and white space |

A method of `AppState` is one step between two pieces of outside work. It takes
in what the work before it gave, and its result says what comes next. Its
contract relates the state before and after, the event log included, so that
laws about calls, the grace period or the event log are stated over the same
functions that the contracts use. `Cycle` puts these steps in order for the
monitor, and says which outside work comes between them.

What outside crates compute is not proved. It is stated in the contracts of a
few functions: regular expressions (`pattern`), RFC 3339 notation (`clock`),
lossy UTF-8 decoding (`watcher`) and `String::push` (`text`).
