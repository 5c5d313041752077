//! The verified core of a fee back-calculator, a program that works back
//! from the amount one wants to receive to the amount to invoice through a
//! site that deducts a fee. The library holds the form and its list of sites
//! as a state machine, the rules and messages of the number fields, the text
//! formatting of whole amounts and fee percentages, and the location of the
//! settings file; the floating-point arithmetic of the amounts is the
//! program's.

mod app_model;
mod config;
mod format;
mod model;
mod text;
mod validation;

pub use app_model::{
    accepted, base_amount_field_name, config_of, message_view, refusal, tax_rate_field_name, lemma_cancel_after_start_edit, lemma_changes_to_settings_are_saved,
    lemma_config_round_trip, lemma_edit_replaces_in_place, lemma_form_stores_only_accepted_fees,
    lemma_remove_deletes_that_site, lemma_remove_undoes_add, lemma_start_edit_loads_the_site,
    lemma_theme_kept_by_other_actions, lemma_typing_sets_the_field,
    lemma_repeated_edit_is_no_op, lemma_updates_notify_when_acting, model_from_config,
    site_name_missing_message, step_add_or_update_site, step_cancel_edit, step_remove_site,
    step_set_base_amount, step_set_site_fee, step_set_site_name, step_set_tax_rate,
    step_start_edit_site, step_update_input_tax_mode, step_update_rounding_mode,
    step_update_theme_name, update_none,
    update_notify, update_persist, update_persist_and_sync_site_form, update_sync_site_form,
    with_site_form_cleared, AppModel, CalculationInputs, ModelUpdate, ModelView,
};
pub use config::{
    adjoined, config_base_dir, config_dir, config_path, has_verbatim_prefix, is_plain_component,
    is_separator_char, needs_separator, path_text, separated,
    APP_DIR_NAME, CONFIG_FILE_NAME,
};
pub use format::{
    digit_char, digit_value, digits_of, format_number, format_yen, grouped_text, integer_string,
    integer_text, is_digit, magnitude, sign_text, trailing_zero_trimmed, trim_trailing_zero,
    value_of_digits, with_thousands_separators, without_commas, without_fraction_zeros,
    lemma_commas_split_groups_of_three, lemma_digits_of_is_decimal_notation,
    lemma_format_number_without_commas_is_integer_string, lemma_group_length,
    lemma_separators_only_add_commas, lemma_trailing_zero_trimmed_shape,
};
pub use model::{
    bits_are_nan, clone_sites, default_config, fee_bits_equal, site_views, AppConfig, ConfigView, InputTaxMode, RoundingMode,
    SiteFee, SiteFeeView,
};
pub use validation::{
    fee_field_name, fee_percent_outcome, lemma_numbers_in_range_are_accepted, fee_too_large_message, non_negative_number_outcome,
    outcome_view, parse_non_negative_number, validate_fee_percent, NumberReading,
};
pub use text::{
    is_white_space, jp, lemma_trim_keeps_the_middle, trim, trim_end_view, trim_start_view,
    trim_view,
};

use vstd::prelude::*;

verus! {

/// Identifier of the application.
pub const APP_ID: &'static str = "com.takashicc.fee-backcalc";

/// Title shown in the window's title bar.
pub const APP_TITLE: &'static str = "Fee Backcalc";

} // verus!
