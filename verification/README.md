# watchdog

A subscription framework: fetchers gather content, subscriptions select the
content each user cares about, and notifiers deliver it. The library under
`src/` is verified with Verus; `app/` holds the actors, the HTTP server, mail
delivery and the other I/O around it.

- `src/subscription`: subscription criteria and the subscription manager.
- `src/notifiers`: notifications, the per-user notifier registry that plans
  deliveries, console, email and composite notifiers, and the notifier actor's
  decisions.
- `src/fetchers.rs`: the per-user fetcher registry and the fetch cycle's decisions.
- `src/keyed.rs`: the insertion-ordered string-keyed store used throughout.
- `src/server`: the HTTP API's requests, responses and their decisions.
- `src/service`: the subscription service API, arXiv papers and criteria, SMTP
  settings and user email addresses.
- `src/text.rs`, `src/clock.rs`, `src/error.rs`: text helpers, the clock and errors.

Each module states its behaviour in `requires`/`ensures` contracts; the
functions named `law_*` state properties that span several operations.

Keyed collections are held in `KeyedStore`, a vector of entries with no
repeated key. A `HashMap` keyed by `String` could stand in its place, but the
specifications of the standard maps prove nothing useful about `String` keys.
The notifiers of each user are held in `NotifierRegistry` rather than in a
concurrent map: the notifier actor owns the registry behind a lock in `app/`,
and the registry is generic over the notifier type, which a contract naming a
concurrent map's contents could not be.
