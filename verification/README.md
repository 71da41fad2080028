# candle_vllm — verified serving-engine logic

A Verus library holding the decision logic of a paged-attention LLM serving engine, each
function with a contract proved by Verus:

- `text` — substring search, equality and replace-all over `Seq<char>` specifications.
- `template_sanitizer` — patches chat templates before rendering.
- `template_registry` — fallback chat templates and expected role markers per model family.
- `request_queue` — bounded FIFO queue of requests waiting for a model.
- `kv_layout` — element types and their sizes, slot ids, decompressed buffer layout,
  quantizer seeds, bytes per KV block.
- `kv_compression` — slot storage of a compressed per-layer KV cache (compressing every
  head through a caller's compressor), the store of all layers with their seeds, and when
  compression applies.
- `cache_engine` — cache configuration, block counts, KV tensor shapes, engine set-up.
- `hybrid_layout` — layer/dimension planning and the configuration of hybrid
  full/linear-attention models.
- `settings` — snapshot stride from the environment (decimal parsing).
- `weight_files` — distinct files of a sharded checkpoint index, from its JSON text.
- `device` — the choice between CUDA, Metal and the CPU.
- `gguf_metadata` — model dimensions from GGUF metadata, and which key is missing.

`app/` holds what the library cannot: the HTTP chat page, the mutex-guarded queue, file
and environment access, tensor allocation on devices, and the floating-point compression
policy and vector compression.
