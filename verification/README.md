# thatsit

A small terminal user interface toolkit, verified with Verus, together with
the disk and file formats of the sampler tools built on it.

- `units`: points, sizes and areas of the terminal grid, and their text.
- `term`: drawing commands and their encoding as terminal escape sequences
  (through crossterm).
- `event`: input events as the widgets read them.
- `layout`: the layout tree, its ranges of sizes, and the spaces it hands to
  its items.
- `flow`: widgets laid out in columns, rows and layers at their minimum sizes.
- `focus`, `focus_list`, `tabs`, `scroll`, `stack`: selection, focus, tabs,
  scrolling and stacks.
- `widgets`: labels, buttons, lists, accordions, frames, borders, file
  listings, a piano roll and more; each describes its drawing as commands.
- `s2k`: AKAI S2000/S3000 disk images and the AKAI character set.
- `hfe`: the HFE floppy image header, track list and track blocks.
- `triton`: the Korg Triton page.
- `electribe`: the Korg Electribe 2 pattern list: choosing a bank file,
  moving through its patterns and moving patterns up and down the list.

`app/` is a terminal directory browser that runs the widgets: it owns the
terminal, the input thread and the file system.
