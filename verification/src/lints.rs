//! The lists of lints, and which of them each flavor selects.

use crate::clippy_flavor::ClippyFlavor;
use crate::text::names;
use vstd::prelude::*;

verus! {

/// List of all lints for the default development flavor
pub const DEVELOPMENT_LINTS: [&'static str; 167] = [
    "missing_docs",
    // Cargo lints
    "clippy::wildcard_dependencies",
    // Pedantic lints
    "clippy::borrow_as_ptr",
    "clippy::case_sensitive_file_extension_comparisons",
    "clippy::cast_lossless",
    "clippy::cast_possible_truncation",
    "clippy::cast_possible_wrap",
    "clippy::cast_precision_loss",
    "clippy::cast_ptr_alignment",
    "clippy::cast_sign_loss",
    "clippy::checked_conversions",
    "clippy::cloned_instead_of_copied",
    "clippy::copy_iterator",
    "clippy::default_trait_access",
    "clippy::doc_link_with_quotes",
    "clippy::doc_markdown",
    "clippy::empty_enum",
    "clippy::enum_glob_use",
    "clippy::expl_impl_clone_on_copy",
    "clippy::explicit_deref_methods",
    "clippy::filter_map_next",
    "clippy::flat_map_option",
    "clippy::float_cmp",
    "clippy::fn_params_excessive_bools",
    "clippy::from_iter_instead_of_collect",
    "clippy::if_not_else",
    "clippy::implicit_clone",
    "clippy::implicit_hasher",
    "clippy::inconsistent_struct_constructor",
    "clippy::index_refutable_slice",
    "clippy::inefficient_to_string",
    "clippy::inline_always",
    "clippy::invalid_upcast_comparisons",
    "clippy::items_after_statements",
    "clippy::iter_not_returning_iterator",
    "clippy::large_digit_groups",
    "clippy::large_stack_arrays",
    "clippy::large_types_passed_by_value",
    "clippy::linkedlist",
    "clippy::macro_use_imports",
    "clippy::manual_assert",
    "clippy::manual_instant_elapsed",
    "clippy::manual_let_else",
    "clippy::manual_ok_or",
    "clippy::manual_string_new",
    "clippy::many_single_char_names",
    "clippy::map_unwrap_or",
    "clippy::match_bool",
    "clippy::match_on_vec_items",
    "clippy::match_same_arms",
    "clippy::match_wild_err_arm",
    "clippy::match_wildcard_for_single_variants",
    "clippy::maybe_infinite_iter",
    "clippy::mismatching_type_param_order",
    "clippy::missing_errors_doc",
    "clippy::missing_panics_doc",
    "clippy::module_name_repetitions",
    "clippy::must_use_candidate",
    "clippy::mut_mut",
    "clippy::naive_bytecount",
    "clippy::needless_bitwise_bool",
    "clippy::needless_continue",
    "clippy::needless_for_each",
    "clippy::needless_pass_by_value",
    "clippy::no_effect_underscore_binding",
    "clippy::option_option",
    "clippy::ptr_as_ptr",
    "clippy::range_minus_one",
    "clippy::range_plus_one",
    "clippy::redundant_closure_for_method_calls",
    "clippy::redundant_else",
    "clippy::ref_binding_to_reference",
    "clippy::ref_option_ref",
    "clippy::return_self_not_must_use",
    "clippy::same_functions_in_if_condition",
    "clippy::semicolon_if_nothing_returned",
    "clippy::similar_names",
    "clippy::single_match_else",
    "clippy::stable_sort_primitive",
    "clippy::string_add_assign",
    "clippy::struct_excessive_bools",
    "clippy::too_many_lines",
    "clippy::transmute_ptr_to_ptr",
    "clippy::trivially_copy_pass_by_ref",
    "clippy::unchecked_duration_subtraction",
    "clippy::unicode_not_nfc",
    "clippy::unnecessary_join",
    "clippy::unnecessary_wraps",
    "clippy::unnested_or_patterns",
    "clippy::unreadable_literal",
    "clippy::unsafe_derive_deserialize",
    "clippy::unused_async",
    "clippy::unused_self",
    "clippy::used_underscore_binding",
    "clippy::verbose_bit_mask",
    "clippy::wildcard_imports",
    "clippy::zero_sized_map_values",
    // Nursery lints
    "clippy::as_ptr_cast_mut",
    "clippy::branches_sharing_code",
    "clippy::debug_assert_with_mut_call",
    "clippy::derive_partial_eq_without_eq",
    "clippy::empty_line_after_outer_attr",
    "clippy::fallible_impl_from",
    "clippy::iter_on_empty_collections",
    "clippy::iter_on_single_items",
    "clippy::manual_clamp",
    "clippy::mutex_integer",
    "clippy::needless_collect",
    "clippy::nonstandard_macro_braces",
    "clippy::or_fun_call",
    "clippy::path_buf_push_overwrite",
    "clippy::redundant_pub_crate",
    "clippy::significant_drop_in_scrutinee",
    "clippy::string_lit_as_bytes",
    "clippy::suboptimal_flops",
    "clippy::suspicious_operation_groupings",
    "clippy::trailing_empty_array",
    "clippy::trait_duplication_in_bounds",
    "clippy::transmute_undefined_repr",
    "clippy::trivial_regex",
    "clippy::type_repetition_in_bounds",
    "clippy::unused_peekable",
    "clippy::unused_rounding",
    "clippy::use_self",
    "clippy::useless_let_if_seq",
    // Restriction lints
    "clippy::allow_attributes_without_reason",
    "clippy::arithmetic_side_effects",
    "clippy::as_conversions",
    "clippy::as_underscore",
    "clippy::assertions_on_result_states",
    "clippy::clone_on_ref_ptr",
    "clippy::create_dir",
    "clippy::decimal_literal_representation",
    "clippy::default_numeric_fallback",
    "clippy::default_union_representation",
    "clippy::disallowed_script_idents",
    "clippy::empty_drop",
    "clippy::empty_structs_with_brackets",
    // Leaving through `exit` hinders error reporting
    "clippy::exit",
    "clippy::expect_used",
    "clippy::filetype_is_file",
    "clippy::float_cmp_const",
    "clippy::fn_to_numeric_cast_any",
    "clippy::format_push_string",
    "clippy::indexing_slicing",
    "clippy::lossy_float_literal",
    "clippy::mem_forget",
    "clippy::missing_docs_in_private_items",
    "clippy::mixed_read_write_in_expression",
    "clippy::mod_module_files",
    "clippy::mutex_atomic",
    "clippy::pattern_type_mismatch",
    "clippy::rc_buffer",
    "clippy::rc_mutex",
    "clippy::same_name_method",
    "clippy::separated_literal_suffix",
    "clippy::str_to_string",
    "clippy::string_add",
    "clippy::string_slice",
    "clippy::string_to_string",
    "clippy::suspicious_xor_used_as_pow",
    "clippy::try_err",
    "clippy::undocumented_unsafe_blocks",
    "clippy::unnecessary_safety_comment",
    "clippy::unnecessary_safety_doc",
    "clippy::unnecessary_self_imports",
    "clippy::unwrap_used",
];

/// Extra pedantic lints which are fine by themselves but should never be on a
/// main branch
pub const PEDANTIC_LINTS: [&'static str; 2] = ["clippy::todo", "clippy::dbg_macro"];

/// Lints to always reject
pub const DENY_ALWAYS: [&'static str; 1] = ["non_ascii_idents"];

/// Lints that are never reported, whatever the flavor
pub const ALLOWED_LINTS: [&'static str; 4] = [
    "clippy::must_use_candidate",
    "clippy::needless_pass_by_value",
    "clippy::module_name_repetitions",
    "clippy::enum_variant_names",
];

/// The lints that a flavor selects, in the order in which they are handed to
/// clippy: the development lints, after them the pedantic ones where the
/// flavor is pedantic, and none at all for a prototype.
pub open spec fn selected_lints(flavor: ClippyFlavor) -> Seq<Seq<char>> {
    match flavor {
        ClippyFlavor::Pedantic => names(DEVELOPMENT_LINTS@) + names(PEDANTIC_LINTS@),
        ClippyFlavor::Development => names(DEVELOPMENT_LINTS@),
        ClippyFlavor::Prototype => Seq::empty(),
    }
}

/// Appends a list of lints to another.
fn push_all(lints: &mut Vec<&'static str>, list: &[&'static str])
    ensures
        final(lints)@ == old(lints)@ + list@,
{
    let mut i: usize = 0;
    while i < list.len()
        invariant
            i <= list.len(),
            lints@ == old(lints)@ + list@.take(i as int),
        decreases list.len() - i,
    {
        lints.push(list[i]);
        assert(list@.take(i + 1) == list@.take(i as int).push(list@[i as int]));
        i += 1;
    }
    assert(list@.take(list.len() as int) == list@);
}

/// The lints that a flavor selects.
pub fn select_lints(flavor: ClippyFlavor) -> (lints: Vec<&'static str>)
    ensures
        names(lints@) == selected_lints(flavor),
{
    let mut lints: Vec<&'static str> = Vec::new();
    match flavor {
        ClippyFlavor::Pedantic => {
            push_all(&mut lints, &DEVELOPMENT_LINTS);
            push_all(&mut lints, &PEDANTIC_LINTS);
        },
        ClippyFlavor::Development => {
            push_all(&mut lints, &DEVELOPMENT_LINTS);
        },
        ClippyFlavor::Prototype => {},
    }
    lints
}

/// A stricter flavor drops no lint. Development selects exactly the
/// development lints. Pedantic selects them too, each at the same place, and
/// the pedantic lints behind them. Prototype selects nothing.
pub proof fn lemma_selection_grows()
    ensures
        selected_lints(ClippyFlavor::Prototype).len() == 0,
        selected_lints(ClippyFlavor::Development) == names(DEVELOPMENT_LINTS@),
        selected_lints(ClippyFlavor::Development).len() == 167,
        selected_lints(ClippyFlavor::Pedantic) == selected_lints(ClippyFlavor::Development)
            + names(PEDANTIC_LINTS@),
        selected_lints(ClippyFlavor::Pedantic).len() == 169,
        selected_lints(ClippyFlavor::Development).is_prefix_of(
            selected_lints(ClippyFlavor::Pedantic),
        ),
        forall|lint: Seq<char>|
            selected_lints(ClippyFlavor::Development).contains(lint) ==> selected_lints(
                ClippyFlavor::Pedantic,
            ).contains(lint),
{
    let development = selected_lints(ClippyFlavor::Development);
    let pedantic = selected_lints(ClippyFlavor::Pedantic);
    assert forall|lint: Seq<char>| development.contains(lint) implies pedantic.contains(lint) by {
        let i = choose|i: int| 0 <= i < development.len() && development[i] == lint;
        assert(pedantic[i] == lint);
    }
}

} // verus!
