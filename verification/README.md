# gitea_bridge

A Gitea → Jenkins bridge. Gitea webhooks (push, pull request) become requests to start a
parameterized Jenkins build; Jenkins build results become Gitea commit statuses.

- `src/` — the verified library (Verus):
  - `processor` — `EventProcessor`, turning events into `JenkinsTriggerRequest`s;
  - `webhook` — signature check (HMAC-SHA256), event screening, endpoint answers,
    Jenkins status → Gitea commit status;
  - `gitea_api`, `jenkins_api` — request addresses, headers and what replies mean;
  - `models`, `events` — webhook payload data; `text`, `http_status` — helpers;
  - `laws` — properties proved of every input.
- `app/` — the HTTP server (axum) and clients (reqwest), with the serde forms of the data.
- `tests/` — tests of the library.
