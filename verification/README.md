# rust_backend

A home-automation controller, verified with Verus.

- `src/relogio.rs`: the 24-hour clock.
- `src/dispositivos.rs`: device states, partial updates, modes, the daily
  routine, the thermostat and the rain rule.
- `src/travas.rs`: device locks and the lock check for an update.
- `src/senhas.rs`: the set of registered passwords.
- `src/estado.rs`: the controller state and the operations behind each
  HTTP route, plus the periodic routine.
- `src/clima.rs`: taking a row of the weather CSV file (read with the `csv`
  crate) and normalising its decimal commas.
- `src/leis.rs`: properties that relate the operations.
- `app/main.rs`: the actix-web server, JSON, the weather file and the
  floating-point readings.
