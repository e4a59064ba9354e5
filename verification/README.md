# svsm_request

The request handling of a Secure VM Service Module (SVSM), verified with Verus.

A confidential guest runs at VM privilege level 1 and calls the SVSM, which runs
at level 0, to move its calling area, to validate memory pages, and to create
and delete virtual CPUs.

- `src/` decides. `request_loop` takes calls and answers them; `create_vcpu`,
  `delete_vcpu`, `pvalidate_request`, `pvalidate` and `remap_ca` serve them.
  Each is a `machine::Machine`, which names the next `platform::Action` and
  takes the `platform::Reply` to it. Its contract says exactly where each reply
  leads, and laws say what holds of every run.
- `app/` acts: it performs the actions on a platform and runs the loop.
- `tests/` play the platform.

Address arithmetic is that of the `x86_64` crate, behind the functions of
`addr`, whose contracts are trusted.
