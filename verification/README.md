# pacom

A communication runtime for applications on uProtocol transports: vSomeIP inside the
vehicle, MQTT 5 towards the cloud. Applications declare in a manifest which RPC methods
they provide and consume and which topics they publish and subscribe to; the runtime maps
those logical names to numeric identifiers, discovers providers, and routes each message
to the right transport.

- `src/` is the library, verified with Verus: the manifest and its identifier spaces,
  discovery state, routing decisions, the plans of publishing, subscribing and RPC, the
  generated vSomeIP configuration, and the interpretation of environment settings.
- `app/` is the asynchronous runtime around it: the transports, the router's `UTransport`
  implementation, the discovery listener and the engine's tasks, all following the
  library's decisions.
- `tests/` exercises the library on concrete values.
