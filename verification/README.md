# lc3_vm

An LC-3 virtual machine whose behaviour is specified and proved with Verus.

- `src/` is the verified library. `vm::MachineState` models the machine
  (memory, registers, program counter, condition code, running flag);
  `vm::step_spec` gives the meaning of one step, and
  `VirtualMachine::step` is proved to compute it. Each instruction family
  (`operation::*`) states its own effect in the same terms, and
  `properties` proves laws that span several operations, such as a load
  giving back what a store wrote, or a `RET` resuming after a `JSR`.
- Console input and output are not performed by the library: a trap step
  returns the console work to do (bytes to print, a character to read and
  maybe echo, a message before stopping), and the caller makes the change
  that follows (storing the character, stopping) only once that work has
  succeeded.
- `app/` is the console front end: it runs the machine over a reader and a
  writer and carries the `Display` messages of the error types.
- `tests/` exercises the library on concrete programs.
