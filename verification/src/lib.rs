pub mod accesses;
pub mod alphabet;
pub mod ast;
pub mod borrow;
pub mod borrowck;
pub mod bounds;
pub mod builds;
pub mod bump;
pub mod calls;
pub mod captures;
pub mod check_calls;
pub mod check_exprs;
pub mod check_flow;
pub mod check_intrinsics;
pub mod check_lambdas;
pub mod check_stmts;
pub mod check_values;
pub mod closures;
pub mod codegen;
pub mod compiler;
pub mod compiler_errors;
pub mod documents;
pub mod effects;
pub mod errors;
pub mod expressions;
pub mod free_names;
pub mod generics;
pub mod hir;
pub mod init_nodes;
pub mod initialization;
pub mod instantiations;
pub mod instruction;
pub mod kinds;
pub mod lending;
pub mod list;
pub mod liveness;
pub mod matches;
pub mod meaning;
pub mod mentions;
pub mod methods;
pub mod modules;
pub mod move_state;
pub mod naming;
pub mod nullables;
pub mod numbers;
pub mod opcodes;
pub mod operators;
pub mod parser;
pub mod paths;
pub mod patterns;
pub mod program;
pub mod read_templates;
pub mod readings;
pub mod ref_effects;
pub mod ref_provenance;
pub mod references;
pub mod registry;
pub mod rendering;
pub mod semantic_tokens;
pub mod server;
pub mod statements;
pub mod steps;
pub mod string_pool;
pub mod text_utils;
pub mod tokens;
pub mod type_checker;
pub mod type_context;
pub mod types;
pub mod values;
pub mod virtual_machine;
pub mod visibility;
pub mod write_flow;
