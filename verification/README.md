# edge-controller

The controller of a proxy edge: it makes a machine at the compute provider, puts
an agent and a bundle on it, points a name at it, starts the proxy at home and
takes everything down again.

The library in `src/` holds the controller's decisions and is verified with
Verus. It does no input or output. `app/` is the program around it: it asks the
providers, runs `ssh`, calls the agent, keeps the journal and serves the
controller's own interface, and at every turn it asks the library what comes
next.

## The library

| Modules | What they decide |
| --- | --- |
| `text`, `lists`, `order`, `json`, `digest`, `ipv4` | Texts, lists and documents, each stated on plain sequences |
| `once` | A change that is asked for once and proved by looking |
| `provider`, `machine`, `catalog`, `adapter`, `target` | Machines: what is wanted, what is seen, which one is used or made |
| `firewall`, `reconcile`, `support`, `access`, `cleanup` | Firewalls and keys: profiles, rules, the controller's own access, and what is removed with the last machine |
| `lifecycle`, `bootstrap`, `substrate`, `vultr_command`, `authority` | Making, starting and removing a machine under an authorized plan, and what such an authority binds |
| `dns`, `zero_trust`, `doctor`, `mesh`, `vpc_command` | The network provider: names, device profiles, gateway rules and routes |
| `application`, `agent` | The application on a host and the agent that runs it |
| `trust`, `ssh_access`, `secrets` | Whom the controller trusts, and how it gets in |
| `deploy`, `destroy`, `records` | A deployment from its first stage to its record, and back |
| `status`, `selector`, `local_runtime` | What is told of the whole, the routes, and the proxy at home |
| `cli`, `controller_command`, `requests`, `error` | What the controller is asked, and how it refuses |

Contracts speak of characters, sequences and the decisions themselves. Proof
functions whose names begin with `law_` state what holds across functions: that a
machine is removed only where the provider shows the recorded one, at the recorded
address, that a failed deployment is rolled back from the moment it is recorded,
that rules only ever come closer to the profile, that a route is kept only where
it was set.

Four things outside the library are taken at their word, each behind one small
function whose comment says what is claimed: the SHA-256 of `ring`, the JSON
reader of `serde_json`, and from the standard library the rendering of a text in
messages and the reading of UTF-8, beside `String::push`.

## The program

`app/main.rs` reads the command line. `controller.rs` carries out what the
library decides over two traits, `Store` and `World`, and `outside.rs` gives both
by the platform's own crates; `grpc.rs` serves and calls the controller.
`host.rs`, `vultr.rs`, `cloudflare.rs`, `lifecycle.rs`, `application.rs` and
`account.rs` hold the loops for hosts, providers, the application and the
account.
