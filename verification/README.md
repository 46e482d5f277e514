# indra_beaglebone

The decisions of a bidirectional (V2H) CHAdeMO charger, verified with Verus.

- `src/` is the library. Every rule stands there as a function with a contract:
  - `global_state`: the modes and the buttons;
  - `chademo`: the start, the course and the end of a session, the current that
    it asks for, and what the panel shows;
  - `data_io`: operator settings, the supervisor, the meter, the broker and
    what is told to Home Assistant, commands, keys and the status lines;
  - `scheduler`, `api`, `logger`: the daily schedule, the web socket and the log;
  - `clock`, `charge_time`, `json`, `text`: what the others are built on.
- `tests/` runs the library on concrete values.
- `app/` is the program around it: configuration, pins, sockets, files, tasks,
  and the controller that computes in floating point.

Proof functions whose names begin with `law_` state what holds across functions.
