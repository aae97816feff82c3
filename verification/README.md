# mono-chain-beep

An intent escrow for a single chain. A user creates an intent by locking input
tokens and a tip and naming the tokens they want in return; an executor fills an
active intent by paying those tokens and receives the locked inputs and the tip;
after the intent's timeout height the creator may withdraw the locked inputs. An
admin maintains the supported tokens and protocols and the default timeout.

- `src/` is the verified library (Verus). Each operation is a function from the
  loaded state and the incoming message to the state to store and the transfers to
  emit, with its contract:
  - `types`: the data model (intents, coins, configuration, transfers, errors);
  - `text`: decimal and timestamp text, error texts;
  - `intent_id`: intent identifiers (SHA-256 and hex encoding behind trusted items);
  - `payment`: checks that native coins were sent or token allowances granted;
  - `admin`: instantiation and the admin's configuration changes;
  - `intents`: creating, filling and withdrawing intents;
  - `queries`: query answers and paging;
  - `laws`: properties of the operations, proved.
- `app/` is the host glue: entry points, storage, token-contract queries and message
  encoding.
- `tests/` runs the library on concrete scenarios.
