# kiro-rs

The decision logic of a gateway to the Kiro API, verified with Verus, and the
program parts around it.

- `src/` is the library. Its functions state what they return and what they
  change, and Verus proves it. The exceptions are the wrappers, marked
  `external_body`, each around one function of another crate or of std: their
  contracts are trusted, and their doc comments say what they claim. The public
  proof functions state what holds of several functions together.
- `app/` talks to the world: HTTP, files, processes, the runtime. It performs
  what the library asks for and hands back what came of it.
- `tests/` runs the library on concrete values.

## Modules of the library

| module | what it decides |
| --- | --- |
| `admin::error`, `admin::failures` | what a failure means for a client, and how it is answered |
| `admin::credentials`, `admin::endpoints`, `admin::listing` | changes of credentials, and the list of them |
| `admin::balance`, `admin::quota` | how long balances are used, and what follows from them |
| `admin::social_login`, `admin::idc_login`, `admin::relogin`, `admin::sessions` | logins, from their start to a credential |
| `admin::images`, `admin::release`, `admin::schedule`, `admin::update_config` | which versions there are, and when one is applied |
| `admin::commands`, `admin::compose`, `admin::image_update` | how an image is applied and rolled back |
| `admin::proxies` | the pool of proxies |
| `anthropic::middleware` | who may use the gateway |
| `kiro` | rate limits of the upstream, events, credentials |
| `text`, `numbers`, `clock`, `encoding` | what the others are written with |

An operation that needs the world comes in halves: one says what to do, the
other takes the outcome. A function that reads the clock or draws a random number
has a twin, with `_at` or `_with` at the end of its name, that takes the value.
