# rust_auth_demo

A small authentication service: users register with a username and password,
log in to receive a token, and present the token to learn who they are.

- `src/` is the verified library (Verus): credential rules (`validation`), the
  error model and its HTTP answers (`error`, `http`), the decisions of the
  register / login / authenticate flows (`service`), the token key scheme and
  its laws (`token`), the credential lookup reading (`credential_repo`), the
  request tracer (`tracer`), configuration values and the Redis client
  constructor (`config`), and decimal rendering (`text`).
- `app/` is the Rocket web service around it: routes, JSON bodies, the
  PostgreSQL and Redis calls, and start-up.
- `tests/` exercises the library on concrete values.
