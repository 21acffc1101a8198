# scripts

Deploy configuration and deployment planning for the Terp Network website
contracts, verified with Verus.

- `src/paths.rs` — data-file paths beside the scripts crate, path joining,
  the DAO artifact check and the preflight check of the data files.
- `src/price.rs`, `src/shitstrap.rs` — spot prices as cosmwasm decimals and
  the shitstrap exchange deploy data.
- `src/json.rs` — the JSON model of contract messages and chain answers.
- `src/deploy_data.rs` — SVG suite, ZK headstash and top-level deploy data.
- `src/zk_deploy.rs` — the ZK test contract deployment as a sequence of
  steps (copy, upload, instantiate, query), run by the caller.
- `src/suite.rs` — the ZK suite steps, the suite deployment plan and the
  collected contract addresses.
- `src/probe.rs` — the file-system probes.
- `app/` — settings, file reads, the chain container and cw-orch deployments
  that drive the library.
