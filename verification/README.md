# iPhoneLoadly API

The server behind iPhoneLoadly: it signs IPAs with an Apple account, installs them on trusted
iPhones over Wi-Fi, keeps track of the installations, and refreshes them before their signatures
run out.

The crate has two parts.

- `src/` is the library, written in Verus. It holds the rules of the server: what an acceptable IPA
  is, which release asset a source picks, when a refresh is due, how a pairing, an installation or an
  update proceeds and what every request is answered. Each function states in its contract what it
  returns, and what holds of the library as a whole is stated by public proof functions.
- `app/` is the server itself: HTTP, SQLite, files, the network and Apple's services. It performs
  the steps that the library decides on and hands back what came of them.

## Modules

| Area | Modules |
| --- | --- |
| IPAs and stored apps | `archive`, `dates`, `ipa`, `apps`, `digest` |
| GitHub sources and updates | `github`, `sources`, `version`, `update` |
| Jobs, installations, refreshes | `store`, `jobs` |
| Signing | `signing`, `sealing` |
| Devices | `devices`, `network` |
| Wireless pairing | `pairing`, `pairing_store`, `commitment`, `established` |
| Services behind a pairing | `session`, `probe`, `stages`, `faults` |
| First installation | `staging`, `afc`, `install` |
| Requests and their answers | `requests`, `reply` |
| Shared | `record`, `text`, `number`, `sorting` |

## What is trusted

Calls into other crates stand behind small functions marked `#[verifier::external_body]`: the ZIP
reader, the property list parser, SHA-256, AES-GCM, base64, random bytes, semantic versions, URLs,
UUIDs, RFC 3339 times, JSON values, pairing files, what a host announces of itself and the
authentication tags of announced devices. Each names the call that it makes and states what is
relied on.
