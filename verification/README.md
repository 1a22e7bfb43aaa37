# vulkan_instance

The decisions behind a Vulkan instance, verified with Verus. The library works on plain
values. Drivers, windows and loggers are reached by the code under `app/`.

| Module | What it holds |
|---|---|
| `names` | names as drivers write them into buffers |
| `extension` | the extensions and layers that matter, by name |
| `driver` | versions, flags and result codes of the API |
| `text` | hexadecimal numbers, joined lists, lossy decoding |
| `debug` | which messages of the validation layers are reported, and how they read |
| `platform` | what depends on the system that is built for |
| `window` | which surface fits which window |
| `instance` | the shared instance, its extensions, surfaces, adapters and release |
| `init` | the creation of an instance, stage by stage |
| `adapter` | which adapters are exposed, and which of them may present |
| `surface` | how a surface gets and loses its swapchain, and how an image is acquired |
| `laws` | what holds of all of these together |

The functions marked `#[verifier::external_body]` and the `assume_specification` in
`driver` are not proved. They call `ash`, `log` or the standard library, and their
comments say what is taken to hold of the call.
