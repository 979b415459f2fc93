//! A builder library for emitting syntactically valid C/C++ source text.
//!
//! Declarations, types, expressions, statements and scoping constructs are
//! assembled in memory as a tree of typed nodes and rendered to text by a
//! recursive-descent pretty-printer.  Every rendering function carries a
//! contract that pins the produced text down exactly, over a mathematical
//! model of the indentation-tracking text sink.

mod attribute;
mod block;
mod class;
mod comment;
mod constructor;
mod doc;
mod enums;
mod expr;
mod field;
mod header;
mod macros;
mod formatter;
mod function;
mod method;
mod param;
mod scope;
mod stmt;
mod structs;
mod switch;
mod text;
mod union;
mod types;
mod variable;
mod variant;

pub use attribute::Attribute;
pub use attribute::attr_def_flat;
pub use attribute::attr_flat;
pub use block::Block;
pub use block::BlockItem;
pub use block::DoWhileLoop;
pub use block::ForLoop;
pub use block::IfElse;
pub use block::WhileLoop;
pub use block::bitem_size;
pub use block::bitem_text;
pub use block::bitems_size;
pub use block::block_text;
pub use block::dowhile_text;
pub use block::forloop_head;
pub use block::forloop_text;
pub use block::ifelse_head;
pub use block::ifelse_text;
pub use block::lemma_bitems_size_elem;
pub use block::opt_expr_text;
pub use block::whileloop_head;
pub use block::whileloop_text;
pub use class::Class;
pub use class::any_attr;
pub use class::any_ctor;
pub use class::any_method;
pub use class::attrs_pass;
pub use class::class_body_text;
pub use class::class_decl_text;
pub use class::class_defs_text;
pub use class::class_head_flat;
pub use class::class_is_empty;
pub use class::class_size;
pub use class::class_scope_text;
pub use class::class_text;
pub use class::ctors_pass;
pub use class::ctors_size;
pub use class::dtor_part;
pub use class::dtor_size;
pub use class::lemma_ctors_size_elem;
pub use class::lemma_methods_size_elem;
pub use class::methods_pass;
pub use class::methods_size;
pub use class::section_hdr;
pub use class::shows_private;
pub use class::shows_protected;
pub use class::shows_public;
pub use class::vis_selects;
pub use comment::Comment;
pub use comment::comment_flat;
pub use comment::comment_lines_flat;
pub use comment::heading_flat;
pub use comment::rule_len;
pub use comment::slashes;
pub use constructor::Constructor;
pub use constructor::Destructor;
pub use constructor::ctor_args_join;
pub use constructor::ctor_name_text;
pub use constructor::ctor_params_text;
pub use constructor::ctor_shows_inits;
pub use constructor::ctor_text;
pub use constructor::dtor_head_flat;
pub use constructor::dtor_text;
pub use constructor::dtor_wf;
pub use constructor::inits_text;
pub use constructor::lead_nl;
pub use constructor::lemma_pure_destructor;
pub use doc::Doc;
pub use doc::add_line_entries;
pub use doc::add_text_entries;
pub use doc::doc_flat;
pub use doc::entry_lines;
pub use doc::doc_add_text;
pub use doc::opt_doc_flat;
pub use doc::opt_doc_lines;
pub use doc::push_opt_doc;
pub use doc::text_entries_of;
pub use doc::wrap_from;
pub use enums::Enum;
pub use enums::enum_text;
pub use enums::variants_body;
pub use enums::variants_end_st;
pub use expr::Expr;
pub use expr::args_text;
pub use expr::expr_is_ptr;
pub use expr::expr_is_struct;
pub use expr::expr_text;
pub use expr::member_sep;
pub use field::Field;
pub use field::field_flat;
pub use field::width_flat;
pub use formatter::Formatter;
pub use function::Function;
pub use function::fn_params_text;
pub use function::function_def_text;
pub use function::function_head_flat;
pub use function::function_shows_body;
pub use function::function_text;
pub use function::lemma_void_fn_parameter_list;
pub use header::Include;
pub use header::include_flat;
pub use macros::Macro;
pub use macros::macro_args_text;
pub use macros::macro_head_flat;
pub use macros::macro_text;
pub use macros::macro_value_text;
pub use formatter::INDENT_STEP;
pub use formatter::char_written;
pub use formatter::indent_seq;
pub use formatter::lemma_line_start_concat;
pub use formatter::lemma_nst_concat;
pub use formatter::lemma_written_concat;
pub use formatter::lemma_written_nst;
pub use formatter::line_start;
pub use formatter::nst;
pub use formatter::scoped_prefix;
pub use formatter::lemma_written_zero_indent;
pub use formatter::written;
pub use method::Method;
pub use method::lemma_inline_split;
pub use method::lemma_void_parameter_list;
pub use method::method_args_join;
pub use method::method_decl_only;
pub use method::method_def_text;
pub use method::method_head_flat;
pub use method::method_params_text;
pub use method::method_text;
pub use param::FunctionParam;
pub use param::MethodParam;
pub use param::fn_param_flat;
pub use param::method_param_flat;
pub use scope::IfDef;
pub use scope::Item;
pub use scope::Scope;
pub use scope::ifdef_head_flat;
pub use scope::ifdef_else_part;
pub use scope::ifdef_text;
pub use scope::lemma_render_deterministic;
pub use scope::lemma_scope_items_size_elem;
pub use scope::scope_item_size;
pub use scope::scope_item_text;
pub use scope::scope_items_size;
pub use scope::scope_items_text;
pub use scope::scope_size;
pub use scope::scope_text;
pub use scope::trim_nl;
pub use stmt::Stmt;
pub use stmt::for_head;
pub use stmt::if_head;
pub use stmt::lemma_stmt_text_line_start;
pub use stmt::lemma_stmts_size_elem;
pub use stmt::stmt_size;
pub use stmt::stmt_text;
pub use stmt::stmts_size;
pub use stmt::stmts_text;
pub use stmt::while_head;
pub use structs::Struct;
pub use structs::fields_text;
pub use structs::record_tail_flat;
pub use structs::struct_decl_flat;
pub use structs::struct_text;
pub use formatter::brace_open;
pub use switch::Switch;
pub use switch::case_text;
pub use switch::cases_size;
pub use switch::cases_text;
pub use switch::default_size;
pub use switch::default_text;
pub use switch::lemma_cases_size_elem;
pub use switch::switch_text;
pub use text::dec_digit;
pub use text::dec_text;
pub use text::first_nl;
pub use text::hex_digit;
pub use text::hex_text;
pub use text::lemma_first_nl_concat;
pub use text::lines_of;
pub use text::push_dec;
pub use text::push_hex;
pub use text::split_lines;
pub use types::BaseType;
pub use union::Union;
pub use union::union_decl_flat;
pub use union::union_text;
pub use types::Type;
pub use types::TypeModifier;
pub use types::Visibility;
pub use types::base_is_integer;
pub use types::base_is_struct;
pub use types::base_is_typedef_ptr;
pub use types::base_text;
pub use types::count_ptrs;
pub use types::last_ptr_index;
pub use types::lemma_count_ptrs_mono;
pub use types::lemma_count_ptrs_push;
pub use types::lemma_deref_pointer_count;
pub use types::lemma_last_ptr_from_count;
pub use types::mod_text;
pub use types::mods_text;
pub use types::tpl_args_text;
pub use types::type_is_integer;
pub use types::type_is_ptr;
pub use types::type_is_struct;
pub use types::type_text;
pub use types::vis_text;
pub use variable::Variable;
pub use variable::var_flat;
pub use variable::var_prefix_flat;
pub use variable::var_stmt_flat;
pub use variable::var_value_flat;
pub use variant::Variant;
pub use variant::variant_flat;
