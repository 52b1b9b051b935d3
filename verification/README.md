# nebo_cli

A command line client of the nebo page service: it logs a user in on the
authentication server of a deployment, then publishes pages (storing their files
in the cloud storage the service configures), makes them private, shares them with
contacts, and deletes them.

## Layout

- `src/` is the verified library. Each operation is a step function from a state
  and an event (a reply, a password, a decoded document, a finished upload) to the
  next state and an action (a request to send, a file to store, ...), with a
  contract over the views of its arguments:
  - `auth` is the login, `ops` the operations built on it (`token`, `delete_page`,
    `delete_pages`, `add_contact`, `remove_contact`, `share_page`, `share_pages`),
    `share` the sharing of one page;
  - `page`, `contacts`, `configuration` build the requests to the service and judge
    its answers; `upload` plans what is stored, cuts a file into parts and collects the parts of a
    multipart upload, and `transfer` sends a file in one request or in parts; `files`,
    `logs`, `env`, `text`, `json` hold the rest;
  - `laws` states what holds across steps and functions.
- `app/` is the program: the command line, the HTTP clients, the terminal, the
  directory scan and the cloud storage calls, which carry out the actions.
- `tests/` runs the library on concrete values.
