# k23_wasm

The core of a WebAssembly runtime for a kernel, verified with Verus.

`src/` is the verified library:

- `parse`, `module_translator`, `module_env` turn the bytes of a module into its description; `types`,
  `indices`, `translate`, `matching` say what modules and their types are.
- `body` and `cranelift/decode` turn the bytes of a function into its locals and operators, by the
  numbers in `cranelift/opcodes`.
- `cranelift/` translates functions, operator by operator, into the intermediate representation of
  `ir`, which `builder` records; `admission` tells which operator can come next, and `jobs` makes the
  code of each job of a module. `func_env` and `builtins` lower what the runtime does into calls.
- `compile`, `compilation`, `finish`, `text_section`, `link`, `link_check` say what is compiled in
  which order, and turn compiled functions into one text section.
- `vmoffsets`, `runtime/` lay out and initialise the contexts and the memory of instances.
- `code_memory`, `code_registry`, `module_registry`, `trap_handling` find code and traps by address.
- `store`, `func`, `typed`, `global` hold the items of a store and check calls.
- `host_funcs/` are the functions that the host offers to guests, and their calls.
- `registry`, `eval_command` read the modules that are given on the kernel's command line, and the
  command that evaluates their functions.

Every public function states what it returns and changes. Laws that span functions are public proof
functions next to what they speak of. The calls into other crates stand behind functions whose
contracts are believed: the parser and the validator (`parse`, `body`), the text section builder of
the code generator (`text_section`), hash maps (`index_map`, `registry`), the operand stack of
constant expressions (`runtime/const_eval`), and the base64 decoder (`registry`).

`app/` is ordinary Rust around the library: the code generator, which is handed the recorded
functions, memory mappings, calls of guests, signals and the console. `tests/` runs the library.
