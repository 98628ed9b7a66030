# xcm_activities

The verified core of the mock runtimes used in XCM activities.

- `src/` (Verus): the decisions of the mock parachain's message queue (how an
  XCMP message is cut into decode attempts, what each XCMP or DMP message
  reports, deposits and stores), together with a verified model of the
  queue's and the version changer's state (parachain id, advertised version,
  received messages, and events, which are not recorded at genesis), and the
  decisions of the runtime test helpers (genesis balances, event scans, block
  rolling). Hashing and XCM decoding are done by `sp-io` and `staging-xcm`
  behind trusted wrappers.
- `app/`: the FRAME runtimes, pallets and XCM configuration. Their pallets
  keep state in FRAME storage and call the library's decision functions; the
  XCM executor runs there.
- `tests/`: tests of the library on concrete values.
