# authvaultix

A client for the AuthVaultix authentication service, written in Verus.

`src/` is the verified library:

- `payload` — request forms (`PayloadBuilder`), each field sent once.
- `client` — the client state (`AuthVaultixCore`, and the `AuthVaultix`
  facade): the form of every request, and what each reply of the server does
  to the state and answers. Requests are refused until `init` succeeds.
- `model` — the server's replies and the library's outcomes.
- `display` — the report on a signed-in user, dates shown in local time.
- `hwid` — reading the Windows SID out of PowerShell and `wmic` output.
- `text` — trimming, decimal notation, integer parsing, remaining time.

`app/` is the interactive program: it posts the forms over HTTPS, reads the
JSON replies, runs the SID queries and prints what the library decides.
