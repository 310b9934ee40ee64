# Zeta

The core of the compiler and the language server of the Zeta language, verified with Verus.

* `src/` is the library. `type_checker` and the modules around it (`check_exprs`, `check_calls`,
  `check_flow`, `patterns`, `borrowck`, `closures`, ...) check a typed program and write down what a
  borrow checker has to do. `compiler` decides how modules are built together. `server`,
  `semantic_tokens`, `documents` and `text_utils` compute what an editor is told. `string_pool`,
  `bump` and `virtual_machine` are the runtime. `parser`, `ast` and `codegen` are the small
  interpreter language.
* Every executable function states what it returns as a spec function of its arguments. Laws that
  relate several functions are public proof functions.
* `tests/` runs the library on concrete programs and texts.
* `app/` is the command line, files, the linker, machine code in memory and the protocol of the
  language server.
