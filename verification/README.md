# ton_client

The verified core of a client for a network of smart contracts, in two parts:

- the debot engine (`src/debot/`), which loads a debot, performs its actions and leads the user
  through its contexts;
- the websocket link (`src/net/`), which numbers GraphQL operations, starts and stops them, and
  frames the messages of the protocol.

## How the engine talks to the world

The engine never does input or output. It asks: a `Request` is something the world has to do, a
`Reply` says what came of it, and a `Dialogue` holds the replies so far. `session::advance` takes an
operation as far as the replies reach and says what is to be done next. The debot changes only once
the operation is done or has failed.

What the engine asks and answers is stated in `debot/script.rs`, as functions over a `Talk`. Every
method of `DEngine` is proved to follow its script. `debot/turns.rs` proves that an operation takes
turns with the world, and that beginning it again with one reply more asks the same things in the
same order. `debot/quiet.rs` proves that loading and performing an action show no context, and
`debot/laws.rs` holds what else is true of a debot whatever it hears.

## Layout

- `src/text.rs`: hexadecimal, UTF-8 and decimal text
- `src/json.rs`: JSON documents, and their way into and out of `serde_json`
- `src/client.rs`: errors and reports of the client
- `src/debot/`: interfaces, actions, contexts, the dialogue, the engine
- `src/net/websocket_link.rs`: the handler of the websocket link
- `tests/`: tests of the library
- `app/`: the asynchronous code around the library: browser, client, channels and the socket
