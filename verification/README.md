# drp-rs

Shows what is playing on the computer as a Discord rich presence.

- `src/` is the verified library:
  - `util.rs`: the texts the presence shows (`MM:SS` times, action names, playback signs), with
    decimal formatting and string joining proved against their specifications;
  - `time.rs`: the facts about `std::time::Duration` the library relies on;
  - `settings.rs`: the settings and their defaults;
  - `metadata_providers/`: now-playing metadata, its MPRIS and Windows sources, and the
    conversions of their status codes;
  - `metadataProviders/`: the single-artist MPRIS record and Tautulli sessions;
  - `service.rs`: the service's decisions — which source to poll, when to give up on Discord,
    and what to show after each poll — with the laws of the polling loop.
- `app/` is the program around it: the tray icon, the settings window, the configuration file,
  reading the MPRIS player over D-Bus, the extension HTTP host and the Discord connection.
- `tests/` runs the library on concrete values.
