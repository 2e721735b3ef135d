# qbee_limiter

A Windows helper that limits a download client (qBittorrent, Transmission, aria2,
µTorrent / BitTorrent Classic, Deluge or BitComet) while a game runs and puts the
client's limits back when the game exits.

The library under `src/` holds the program's logic with its contracts, proved with Verus:

- `config`, `legacy`: the settings, their defaults and the repair applied when loading;
  the single-window program's settings, input checks, monitor and window decisions.
- `controller`, `monitor`: what game mode changes on each client, what it remembers and
  how it restores it; the background monitor's decisions from one check to the next.
- `clients`, `json`, `bitcomet`, `urls`, `encoding`: the request bodies of the clients'
  web APIs and the readers of their replies, from the reply text (parsed with
  `serde_json`) to the value or error the program goes on with, and BitComet's sign-in.
- `detect`: game detection by process name and path, Steam manifests and library lists,
  the sorted detection folders and the process path cache.
- `server`, `diagnostics`, `shell`: the local configuration page's HTTP side, the
  configuration self-check, and what is written into the system.
- `text`, `wide`: character-level text operations and Windows UTF-16 text.

`app/` is the program around the library: Win32 windows and process enumeration, HTTP
with `ureq` (including the JSON text of request bodies), files, the registry, and the
JSON forms of the settings. `tests/` runs the
library on concrete values.

## Collections

Two collections are kept as `Vec`s, each with an invariant, where one might reach for a
std collection:

- `detect::PathCache` maps a process id to its executable name and path. It is a `Vec` of
  entries with distinct ids rather than a `HashMap<u32, _>`, because pruning to the
  running processes (`HashMap::retain`) has no specification in vstd. The invariant
  (distinct ids) makes the number of entries the map's size.
- `detect::SortedStrings` holds strings in order without duplicates, as a
  `BTreeSet<String>` would. vstd models `BTreeSet` only for keys that obey its ordering
  laws and states no iteration order, and neither holds for `String` there. The
  invariant is that the list is strictly increasing in byte order. Membership tests in a
  list of names replace a `HashSet<String>` for the same reason.
