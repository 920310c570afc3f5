# asphalt

The verified core of an asset pipeline for Roblox projects: it classifies
files by extension, looks inside Roblox model files (binary `.rbxm` and XML
`.rbxmx`) to tell animations from models, writes asset references, and decides
how each asset is synced into Roblox Studio's content folder.

- `src/` is the library, checked by Verus. `binary_model` reads the binary
  model format (header, chunks, `INST` and `PRNT` chunks, referent arrays),
  `xml_model` and `roblox_model` find the root class of a model,
  `asset_type`, `asset` and `asset_ref` classify and name assets, `studio`
  holds the Studio sync decisions, `decompress` and `text` wrap the few
  outside calls the logic makes.
- `app/` holds what touches the file system and the outside traits: the
  `OsStr` and `Bytes` adapters, serialisation of asset types, `Display` for
  asset references and the Studio backend that writes files and, through an
  upload function its caller supplies, uploads models.
- `tests/` exercises the library on concrete inputs, including models written
  by `rbx_binary` and `rbx_xml`.
