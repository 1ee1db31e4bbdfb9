# MeshChat

MeshChat is a desktop chat app for Meshtastic and MeshCore LoRa radios attached over Bluetooth
LE: it discovers radios, connects to one, and chats on its channels or directly with nodes. It
remembers the last radio and conversation and reconnects to them at start-up.

## Layout

- `src/` is the library, verified with Verus: every decision of the app lives here with its
  contract.
  - `meshchat.rs`: the app as a whole, its messages and the work each asks for.
  - `device.rs`: the connected radio, its conversations, nodes and channels, and the events of
    its subscription.
  - `channel_view.rs`, `entry.rs`: a conversation and its entries, kept in time order, trimmed
    to the history setting, with acknowledgements, seen marks and emoji replies.
  - `device_list.rs`, `discovery.rs`: radios found and lost by Bluetooth scans.
  - `mesht.rs`, `meshc.rs`: what Meshtastic packets and MeshCore events mean for the app, and
    the packets and texts the app sends.
  - `subscription.rs`: the link to a radio, from disconnected to connected and back.
  - `config.rs`, `model.rs`, `content.rs`, `text.rs`: settings, the app's values, rich text and
    text helpers; `strmap.rs`, `idmap.rs`, `ring.rs`: the maps the library keeps.
  - Public proof functions state the library's laws (for example `lemma_reconnects_to_saved_device`,
    `lemma_received_message_kept`, `lemma_lost_on_third_missed_scan`).
- `tests/` runs the library on concrete values.
- `app/` is the program around the library: the window (iced), Bluetooth discovery (btleplug),
  the radios' links (meshtastic, meshcore-rs) and the settings file (serde, TOML).
