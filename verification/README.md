# transonic

The playback core of Transonic, a music player for Subsonic servers, written in Verus.

- `src/` is the verified library: the models, the playback queue and its play-next region,
  the playback controller (transport, queue editing, gapless preparation, recovery of lost
  output streams, shared Connect playback), reporting to the server, saved profiles,
  saved playback state, the file credential store and the settings rules.
- `tests/` drives the library with mock backends, servers and sinks.
- `app/` holds what the library leaves to the host: file and keyring storage, the JSON
  forms of the saved files, the output volume, the event queues filled by platform
  backends and the thread that reports playback to the server.

## Design notes

- The controller keeps a ghost record of everything it hands to its collaborators. Each
  backend keeps its own record of the commands it was handed (`PlaybackBackend::handed`),
  and the controller proves that this record is always what it had before plus exactly the
  commands its own record shows (`PlaybackController::in_step`). The contracts of the
  controller speak of that record.
- The file credential store keeps its entries as a vector of key/value pairs with distinct
  keys, not as a hash map: vstd's specification of `HashMap` says nothing usable about maps
  keyed by text, so the store's contracts could not be proved over one.
- Backend commands (`prepare`, `activate_prepared`, `clear_prepared`, `update_artwork`,
  `set_output_device`) have no default bodies: a default body could not keep the backend's
  record of commands.
