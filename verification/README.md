# mist_media

The media part of an image-generation service: requests for images are
validated, priced in ink, admitted against the user's balance, handed to a
provider (Replicate, Stable Horde, DALL-E, LabML, Modal, Dream, Stability),
followed until the provider is done, stored in Backblaze B2 and recorded,
and settled or refunded.

- `src/` is the library, verified with Verus. Request validation, ink
  pricing, the SQL the service writes, the storage paths and links, and the
  decisions of every multi-step operation (admission, completion, deletion,
  the polling of each provider) are functions with contracts; the
  multi-step operations are state machines from state and event to next
  state and action.
- `app/` runs those machines against the network, the database and the
  clock, and holds the wire formats of the providers' JSON.
- `tests/` exercises the library on concrete values.
