# minerust

The rules of a voxel sandbox world, written in Verus and proved against their
contracts: chunk storage and its compressed save format, coordinates, terrain
layering from per-column terrain values, block reads and writes, cellular water
flow, which block faces a chunk mesh draws (face by face, merged into rectangles,
and sampled for distant sloped terrain), block textures, chunk streaming around
the player, the inventory and block edits, the menus and their settings, the seed
box, command-line options and the names of save files.

## Layout

- `src/` — the verified library. Each module states its model in spec functions
  and proves its laws as public proof functions, among them:
  - `chunk`: chunk bytes read back as the chunk written (`lemma_bytes_roundtrip`,
    `lemma_compressed_roundtrip`);
  - `world`: a read after a write (`lemma_get_after_set`);
  - `fluid`: a water tick changes one block at most (`lemma_tick_changes_one_block`)
    and keeps the queue free of repeats (`lemma_steps_keep_queue_wf`);
  - `mesher::greedy` and `mesher::standard`: merged rectangles cover the visible
    faces exactly, and greedy meshing never draws more faces than unit-face meshing
    (`lemma_greedy_no_more_faces`);
  - `inventory`: adding items neither creates nor loses any (`lemma_add_item_conserves`);
  - `streaming`: the chunks to generate, mesh and unload (`lemma_needed_chunks_exact`,
    `lemma_plan_disjoint`), and the generation queue, which never has a chunk both loaded
    and in progress (`lemma_dispatch_disjoint`).
- `tests/` — tests run against the compiled library.
- `app/` — the program around the library: noise and height sampling in floating
  point, mesh geometry, files on disk (serde copies of the saved types), process
  memory, and `main`.

Chunk compression calls `lz4_flex` and the cache of unloaded chunks is a
`quick_cache` cache; what is assumed of them is stated on the wrappers in
`src/chunk.rs` and `src/chunk_cache.rs`.
