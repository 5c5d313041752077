//! The state of the calculator's form and of its list of sites, and how each
//! user action changes it.
//!
//! The amounts that the form produces are computed in floating point, which
//! stays outside this library: the model hands out the inputs of that
//! computation, and takes what a number field's text reads as (a
//! [`NumberReading`]) as an argument where its rules need it.

use vstd::prelude::*;

use crate::format::{trailing_zero_trimmed, trim_trailing_zero};
use crate::model::{
    clone_sites, site_views, AppConfig, ConfigView, InputTaxMode, RoundingMode, SiteFee,
    SiteFeeView,
};
use crate::text::{trim, trim_view};
use crate::validation::{
    fee_percent_outcome, non_negative_number_outcome, parse_non_negative_number,
    validate_fee_percent, NumberReading,
};

verus! {

/// What the user interface has to do after a change of the model.
#[derive(Clone, Copy, Debug, Default, PartialEq, Eq, Structural)]
pub struct ModelUpdate {
    /// Redraw.
    pub should_notify: bool,
    /// Save the settings.
    pub should_persist: bool,
    /// Copy the site form's texts back into its input fields.
    pub should_sync_site_form: bool,
}

/// Nothing to do.
pub open spec fn update_none() -> ModelUpdate {
    ModelUpdate { should_notify: false, should_persist: false, should_sync_site_form: false }
}

/// Redraw only.
pub open spec fn update_notify() -> ModelUpdate {
    ModelUpdate { should_notify: true, should_persist: false, should_sync_site_form: false }
}

/// Redraw and save.
pub open spec fn update_persist() -> ModelUpdate {
    ModelUpdate { should_notify: true, should_persist: true, should_sync_site_form: false }
}

/// Redraw and refresh the site form.
pub open spec fn update_sync_site_form() -> ModelUpdate {
    ModelUpdate { should_notify: true, should_persist: false, should_sync_site_form: true }
}

/// Redraw, save and refresh the site form.
pub open spec fn update_persist_and_sync_site_form() -> ModelUpdate {
    ModelUpdate { should_notify: true, should_persist: true, should_sync_site_form: true }
}

impl ModelUpdate {
    /// Whether the update asks for a redraw whenever it asks for anything.
    pub open spec fn notifies_when_acting(self) -> bool {
        (self.should_persist || self.should_sync_site_form) ==> self.should_notify
    }

    /// Nothing to do.
    pub fn none() -> (update: Self)
        ensures
            update == update_none(),
    {
        ModelUpdate { should_notify: false, should_persist: false, should_sync_site_form: false }
    }

    /// Redraw only.
    pub fn notify() -> (update: Self)
        ensures
            update == update_notify(),
    {
        ModelUpdate { should_notify: true, ..Self::none() }
    }

    /// Redraw and save.
    pub fn persist() -> (update: Self)
        ensures
            update == update_persist(),
    {
        ModelUpdate { should_notify: true, should_persist: true, should_sync_site_form: false }
    }

    /// Redraw and refresh the site form.
    pub fn sync_site_form() -> (update: Self)
        ensures
            update == update_sync_site_form(),
    {
        ModelUpdate { should_notify: true, should_persist: false, should_sync_site_form: true }
    }

    /// Redraw, save and refresh the site form.
    pub fn persist_and_sync_site_form() -> (update: Self)
        ensures
            update == update_persist_and_sync_site_form(),
    {
        ModelUpdate { should_notify: true, should_persist: true, should_sync_site_form: true }
    }
}

/// The message shown when a fee is typed without a site name.
pub open spec fn site_name_missing_message() -> Seq<char> {
    "依頼サイト名を入力してください"@
}

/// What an [`AppModel`] holds, as plain values.
pub struct ModelView {
    /// The amount one wants to receive, as typed.
    pub base_amount: Seq<char>,
    /// The consumption tax rate in percent, as typed.
    pub tax_rate: Seq<char>,
    /// The site form's name field.
    pub site_name: Seq<char>,
    /// The site form's fee field.
    pub site_fee: Seq<char>,
    pub input_tax_mode: InputTaxMode,
    pub rounding_mode: RoundingMode,
    /// The registered sites.
    pub sites: Seq<SiteFeeView>,
    /// The site that the form edits, if it edits one.
    pub editing_index: Option<usize>,
    /// The name of the theme that the user chose, if one was chosen.
    pub theme_name: Option<Seq<char>>,
}

/// The model of a first start on the settings `c`: the settings, an empty
/// site form, and no site being edited.
pub open spec fn model_from_config(c: ConfigView) -> ModelView {
    ModelView {
        base_amount: c.base_amount,
        tax_rate: c.tax_rate,
        site_name: Seq::empty(),
        site_fee: Seq::empty(),
        input_tax_mode: c.input_tax_mode,
        rounding_mode: c.rounding_mode,
        sites: c.sites,
        editing_index: None,
        theme_name: None,
    }
}

/// The settings that the model `m` saves.
pub open spec fn config_of(m: ModelView) -> ConfigView {
    ConfigView {
        base_amount: m.base_amount,
        input_tax_mode: m.input_tax_mode,
        tax_rate: m.tax_rate,
        rounding_mode: m.rounding_mode,
        sites: m.sites,
    }
}

/// `m` with an empty site form that edits no site.
pub open spec fn with_site_form_cleared(m: ModelView) -> ModelView {
    ModelView { editing_index: None, site_name: Seq::empty(), site_fee: Seq::empty(), ..m }
}

/// Typing `v` as the amount to receive.
pub open spec fn step_set_base_amount(m: ModelView, v: Seq<char>) -> (ModelView, ModelUpdate) {
    if m.base_amount == v {
        (m, update_none())
    } else {
        (ModelView { base_amount: v, ..m }, update_notify())
    }
}

/// Typing `v` as the tax rate.
pub open spec fn step_set_tax_rate(m: ModelView, v: Seq<char>) -> (ModelView, ModelUpdate) {
    if m.tax_rate == v {
        (m, update_none())
    } else {
        (ModelView { tax_rate: v, ..m }, update_persist())
    }
}

/// Typing `v` as the site form's name.
pub open spec fn step_set_site_name(m: ModelView, v: Seq<char>) -> (ModelView, ModelUpdate) {
    if m.site_name == v {
        (m, update_none())
    } else {
        (ModelView { site_name: v, ..m }, update_notify())
    }
}

/// Typing `v` as the site form's fee.
pub open spec fn step_set_site_fee(m: ModelView, v: Seq<char>) -> (ModelView, ModelUpdate) {
    if m.site_fee == v {
        (m, update_none())
    } else {
        (ModelView { site_fee: v, ..m }, update_notify())
    }
}

/// Choosing `mode` for the amount to receive.
pub open spec fn step_update_input_tax_mode(m: ModelView, mode: InputTaxMode) -> (
    ModelView,
    ModelUpdate,
) {
    if m.input_tax_mode == mode {
        (m, update_none())
    } else {
        (ModelView { input_tax_mode: mode, ..m }, update_persist())
    }
}

/// Choosing `mode` for rounding.
pub open spec fn step_update_rounding_mode(m: ModelView, mode: RoundingMode) -> (
    ModelView,
    ModelUpdate,
) {
    if m.rounding_mode == mode {
        (m, update_none())
    } else {
        (ModelView { rounding_mode: mode, ..m }, update_persist())
    }
}

/// Submitting the site form, where `fee` is the bit pattern of the fee that
/// the fee field holds if that fee is accepted, and `None` if it is refused:
/// a site with the trimmed name and that fee replaces the edited site, or is
/// added at the end when no site is edited, and the form is cleared. With
/// a blank name or a refused fee nothing changes.
pub open spec fn step_add_or_update_site(m: ModelView, fee: Option<u64>) -> (ModelView, ModelUpdate) {
    let name = trim_view(m.site_name);
    if name.len() == 0 || fee is None {
        (m, update_notify())
    } else {
        let site = SiteFeeView { name: name, fee_percent_bits: fee->0 };
        let sites = match m.editing_index {
            Some(i) => if i < m.sites.len() {
                m.sites.update(i as int, site)
            } else {
                m.sites
            },
            None => m.sites.push(site),
        };
        (with_site_form_cleared(ModelView { sites: sites, ..m }), update_persist_and_sync_site_form())
    }
}

/// Choosing the theme named `name`.
pub open spec fn step_update_theme_name(m: ModelView, name: Seq<char>) -> (ModelView, ModelUpdate) {
    if m.theme_name == Some(name) {
        (m, update_none())
    } else {
        (ModelView { theme_name: Some(name), ..m }, update_persist())
    }
}

/// Starting to edit site `index`, where `fee_text` renders that site's fee
/// with a fixed count of fraction digits.
pub open spec fn step_start_edit_site(m: ModelView, index: usize, fee_text: Seq<char>) -> (
    ModelView,
    ModelUpdate,
) {
    if index < m.sites.len() {
        (
            ModelView {
                editing_index: Some(index),
                site_name: m.sites[index as int].name,
                site_fee: trailing_zero_trimmed(fee_text),
                ..m
            },
            update_sync_site_form(),
        )
    } else {
        (m, update_none())
    }
}

/// Removing site `index`; the form is cleared when it edits that site.
pub open spec fn step_remove_site(m: ModelView, index: usize) -> (ModelView, ModelUpdate) {
    if index >= m.sites.len() {
        (m, update_none())
    } else {
        let removed = ModelView { sites: m.sites.remove(index as int), ..m };
        if m.editing_index == Some(index) {
            (with_site_form_cleared(removed), update_persist_and_sync_site_form())
        } else {
            (removed, update_persist())
        }
    }
}

/// Leaving the site form.
pub open spec fn step_cancel_edit(m: ModelView) -> (ModelView, ModelUpdate) {
    if m.editing_index is None && m.site_name.len() == 0 && m.site_fee.len() == 0 {
        (m, update_none())
    } else {
        (with_site_form_cleared(m), update_sync_site_form())
    }
}

/// The accepted value in the outcome of reading a number, if there is one.
pub open spec fn accepted(outcome: Result<u64, Seq<char>>) -> Option<u64> {
    match outcome {
        Ok(bits) => Some(bits),
        Err(_) => None,
    }
}

/// The name of the amount field, as the messages call it.
pub open spec fn base_amount_field_name() -> Seq<char> {
    "受け取りたい金額"@
}

/// The name of the tax rate field, as the messages call it.
pub open spec fn tax_rate_field_name() -> Seq<char> {
    "消費税率"@
}

/// The message in a refused outcome, if it is refused.
pub open spec fn refusal(outcome: Result<u64, Seq<char>>) -> Option<Seq<char>> {
    match outcome {
        Ok(_) => None,
        Err(message) => Some(message),
    }
}

/// An optional message taken as plain characters.
pub open spec fn message_view(message: Option<String>) -> Option<Seq<char>> {
    match message {
        Some(text) => Some(text@),
        None => None,
    }
}

/// What the form's amount and tax rate allow to be computed.
#[derive(Debug, PartialEq)]
pub enum CalculationInputs {
    /// The amount or the tax rate is blank: there is nothing to compute and
    /// nothing to complain about.
    Blank,
    /// A number was refused; the message says why, and no rows are shown.
    Refused(String),
    /// Both numbers were accepted (given as their bit patterns, the tax
    /// rate in percent): one row is computed for each site.
    Ready { base_amount_bits: u64, tax_rate_percent_bits: u64 },
}

/// The form's inputs, the registered sites, the site that the form edits,
/// and the chosen theme.
#[derive(Debug, PartialEq)]
pub struct AppModel {
    base_amount: String,
    tax_rate: String,
    site_name: String,
    site_fee: String,
    input_tax_mode: InputTaxMode,
    rounding_mode: RoundingMode,
    sites: Vec<SiteFee>,
    editing_index: Option<usize>,
    theme_name: Option<String>,
}

impl View for AppModel {
    type V = ModelView;

    closed spec fn view(&self) -> ModelView {
        ModelView {
            base_amount: self.base_amount@,
            tax_rate: self.tax_rate@,
            site_name: self.site_name@,
            site_fee: self.site_fee@,
            input_tax_mode: self.input_tax_mode,
            rounding_mode: self.rounding_mode,
            sites: site_views(self.sites@),
            editing_index: self.editing_index,
            theme_name: match self.theme_name {
                Some(name) => Some(name@),
                None => None,
            },
        }
    }
}

impl Clone for AppModel {
    fn clone(&self) -> (copy: Self)
        ensures
            copy@ == self@,
    {
        AppModel {
            base_amount: self.base_amount.clone(),
            tax_rate: self.tax_rate.clone(),
            site_name: self.site_name.clone(),
            site_fee: self.site_fee.clone(),
            input_tax_mode: self.input_tax_mode,
            rounding_mode: self.rounding_mode,
            sites: clone_sites(&self.sites),
            editing_index: self.editing_index,
            theme_name: match &self.theme_name {
                Some(name) => Some(name.clone()),
                None => None,
            },
        }
    }
}

impl AppModel {
    /// The model for the saved settings `config`, with an empty site form.
    pub fn from_config(config: AppConfig) -> (model: Self)
        ensures
            model@ == model_from_config(config@),
    {
        AppModel {
            base_amount: config.base_amount,
            tax_rate: config.tax_rate,
            site_name: String::new(),
            site_fee: String::new(),
            input_tax_mode: config.input_tax_mode,
            rounding_mode: config.rounding_mode,
            sites: config.sites,
            editing_index: None,
            theme_name: None,
        }
    }

    /// The settings to save.
    pub fn to_config(&self) -> (config: AppConfig)
        ensures
            config@ == config_of(self@),
    {
        AppConfig {
            base_amount: self.base_amount.clone(),
            input_tax_mode: self.input_tax_mode,
            tax_rate: self.tax_rate.clone(),
            rounding_mode: self.rounding_mode,
            sites: clone_sites(&self.sites),
        }
    }

    /// The amount to receive, as typed.
    pub fn base_amount(&self) -> (text: &str)
        ensures
            text@ == self@.base_amount,
    {
        self.base_amount.as_str()
    }

    /// The tax rate, as typed.
    pub fn tax_rate(&self) -> (text: &str)
        ensures
            text@ == self@.tax_rate,
    {
        self.tax_rate.as_str()
    }

    /// The site form's name.
    pub fn site_name(&self) -> (text: &str)
        ensures
            text@ == self@.site_name,
    {
        self.site_name.as_str()
    }

    /// The site form's fee.
    pub fn site_fee(&self) -> (text: &str)
        ensures
            text@ == self@.site_fee,
    {
        self.site_fee.as_str()
    }

    /// Whether the amount to receive includes tax.
    pub fn input_tax_mode(&self) -> (mode: InputTaxMode)
        ensures
            mode == self@.input_tax_mode,
    {
        self.input_tax_mode
    }

    /// How fractions of a yen are rounded.
    pub fn rounding_mode(&self) -> (mode: RoundingMode)
        ensures
            mode == self@.rounding_mode,
    {
        self.rounding_mode
    }

    /// The registered sites.
    pub fn sites(&self) -> (sites: &[SiteFee])
        ensures
            site_views(sites@) == self@.sites,
    {
        self.sites.as_slice()
    }

    /// The index of the site that the form edits.
    pub fn editing_index(&self) -> (index: Option<usize>)
        ensures
            index == self@.editing_index,
    {
        self.editing_index
    }

    /// The site that the form edits, when it edits one that exists.
    pub fn editing_site(&self) -> (site: Option<&SiteFee>)
        ensures
            match self@.editing_index {
                Some(i) => if i < self@.sites.len() {
                    site matches Some(s) && s@ == self@.sites[i as int]
                } else {
                    site is None
                },
                None => site is None,
            },
    {
        match self.editing_index {
            Some(index) => {
                if index < self.sites.len() {
                    Some(&self.sites[index])
                } else {
                    None
                }
            },
            None => None,
        }
    }

    /// Sets the amount to receive; a redraw is asked for when it changed.
    pub fn set_base_amount(&mut self, value: String) -> (update: ModelUpdate)
        ensures
            (final(self)@, update) == step_set_base_amount(old(self)@, value@),
    {
        if self.base_amount == value {
            return ModelUpdate::none();
        }
        self.base_amount = value;
        ModelUpdate::notify()
    }

    /// Sets the tax rate; a redraw and a save are asked for when it changed.
    pub fn set_tax_rate(&mut self, value: String) -> (update: ModelUpdate)
        ensures
            (final(self)@, update) == step_set_tax_rate(old(self)@, value@),
    {
        if self.tax_rate == value {
            return ModelUpdate::none();
        }
        self.tax_rate = value;
        ModelUpdate::persist()
    }

    /// Sets the site form's name; a redraw is asked for when it changed.
    pub fn set_site_name(&mut self, value: String) -> (update: ModelUpdate)
        ensures
            (final(self)@, update) == step_set_site_name(old(self)@, value@),
    {
        if self.site_name == value {
            return ModelUpdate::none();
        }
        self.site_name = value;
        ModelUpdate::notify()
    }

    /// Sets the site form's fee; a redraw is asked for when it changed.
    pub fn set_site_fee(&mut self, value: String) -> (update: ModelUpdate)
        ensures
            (final(self)@, update) == step_set_site_fee(old(self)@, value@),
    {
        if self.site_fee == value {
            return ModelUpdate::none();
        }
        self.site_fee = value;
        ModelUpdate::notify()
    }

    /// Chooses whether the amount to receive includes tax.
    pub fn update_input_tax_mode(&mut self, mode: InputTaxMode) -> (update: ModelUpdate)
        ensures
            (final(self)@, update) == step_update_input_tax_mode(old(self)@, mode),
    {
        if self.input_tax_mode == mode {
            return ModelUpdate::none();
        }
        self.input_tax_mode = mode;
        ModelUpdate::persist()
    }

    /// Chooses how fractions of a yen are rounded.
    pub fn update_rounding_mode(&mut self, mode: RoundingMode) -> (update: ModelUpdate)
        ensures
            (final(self)@, update) == step_update_rounding_mode(old(self)@, mode),
    {
        if self.rounding_mode == mode {
            return ModelUpdate::none();
        }
        self.rounding_mode = mode;
        ModelUpdate::persist()
    }

    /// The name of the chosen theme, if one was chosen.
    pub fn theme_name(&self) -> (name: Option<&str>)
        ensures
            match self@.theme_name {
                Some(t) => name matches Some(n) && n@ == t,
                None => name is None,
            },
    {
        match &self.theme_name {
            Some(name) => Some(name.as_str()),
            None => None,
        }
    }

    /// Chooses the theme named `name`; a redraw and a save are asked for
    /// when the choice changed.
    pub fn update_theme_name(&mut self, name: String) -> (update: ModelUpdate)
        ensures
            (final(self)@, update) == step_update_theme_name(old(self)@, name@),
    {
        let unchanged = match &self.theme_name {
            Some(current) => *current == name,
            None => false,
        };
        if unchanged {
            return ModelUpdate::none();
        }
        self.theme_name = Some(name);
        ModelUpdate::persist()
    }

    /// Empties the site form and stops editing.
    fn clear_site_form_state(&mut self)
        ensures
            final(self)@ == with_site_form_cleared(old(self)@),
    {
        self.editing_index = None;
        self.site_name = String::new();
        self.site_fee = String::new();
    }

    /// Submits the site form. `fee_reading` is what the trimmed fee field
    /// reads as.
    pub fn add_or_update_site(&mut self, fee_reading: NumberReading) -> (update: ModelUpdate)
        ensures
            (final(self)@, update) == step_add_or_update_site(
                old(self)@,
                accepted(fee_percent_outcome(trim_view(old(self)@.site_fee), fee_reading)),
            ),
    {
        let name = trim(self.site_name.as_str());
        let fee_text = trim(self.site_fee.as_str());
        let fee_percent_bits = match validate_fee_percent(fee_text, fee_reading) {
            Ok(bits) => bits,
            Err(_) => {
                return ModelUpdate::notify();
            },
        };
        if name.is_empty() {
            return ModelUpdate::notify();
        }
        let site = SiteFee { name: String::from_str(name), fee_percent_bits };
        let ghost old_sites = self.sites@;
        let ghost site_view = site@;
        match self.editing_index {
            Some(index) => {
                if index < self.sites.len() {
                    self.sites.set(index, site);
                    assert(site_views(self.sites@) =~= site_views(old_sites).update(
                        index as int,
                        site_view,
                    ));
                }
            },
            None => {
                self.sites.push(site);
                assert(site_views(self.sites@) =~= site_views(old_sites).push(site_view));
            },
        }
        self.clear_site_form_state();
        ModelUpdate::persist_and_sync_site_form()
    }

    /// Starts editing site `index`. `fee_text` is that site's fee rendered
    /// with four fraction digits; the form shows it without trailing zeros.
    pub fn start_edit_site(&mut self, index: usize, fee_text: &str) -> (update: ModelUpdate)
        ensures
            (final(self)@, update) == step_start_edit_site(old(self)@, index, fee_text@),
    {
        if index >= self.sites.len() {
            return ModelUpdate::none();
        }
        let name = self.sites[index].name.clone();
        self.editing_index = Some(index);
        self.site_name = name;
        self.site_fee = trim_trailing_zero(fee_text);
        ModelUpdate::sync_site_form()
    }

    /// Removes site `index`.
    pub fn remove_site(&mut self, index: usize) -> (update: ModelUpdate)
        ensures
            (final(self)@, update) == step_remove_site(old(self)@, index),
    {
        if index >= self.sites.len() {
            return ModelUpdate::none();
        }
        let ghost old_sites = self.sites@;
        self.sites.remove(index);
        assert(site_views(self.sites@) =~= site_views(old_sites).remove(index as int));
        let mut update = ModelUpdate::persist();
        if self.editing_index == Some(index) {
            self.clear_site_form_state();
            update.should_sync_site_form = true;
        }
        update
    }

    /// Leaves the site form, emptying it.
    pub fn cancel_edit(&mut self) -> (update: ModelUpdate)
        ensures
            (final(self)@, update) == step_cancel_edit(old(self)@),
    {
        if self.editing_index.is_none() && self.site_name.as_str().is_empty()
            && self.site_fee.as_str().is_empty() {
            return ModelUpdate::none();
        }
        self.clear_site_form_state();
        ModelUpdate::sync_site_form()
    }

    /// The message for the amount to receive: none while it is blank, and
    /// otherwise the refusal of the trimmed amount, which reads as `reading`.
    pub fn base_amount_error(&self, reading: NumberReading) -> (message: Option<String>)
        ensures
            message_view(message) == if trim_view(self@.base_amount).len() == 0 {
                None
            } else {
                refusal(
                    non_negative_number_outcome(
                        base_amount_field_name(),
                        trim_view(self@.base_amount),
                        reading,
                    ),
                )
            },
    {
        let base_amount = trim(self.base_amount.as_str());
        if base_amount.is_empty() {
            None
        } else {
            match parse_non_negative_number("受け取りたい金額", base_amount, reading) {
                Ok(_) => None,
                Err(e) => Some(e),
            }
        }
    }

    /// The message for the tax rate: the refusal of the trimmed rate, which
    /// reads as `reading`.
    pub fn tax_rate_error(&self, reading: NumberReading) -> (message: Option<String>)
        ensures
            message_view(message) == refusal(
                non_negative_number_outcome(tax_rate_field_name(), trim_view(self@.tax_rate), reading),
            ),
    {
        match parse_non_negative_number("消費税率", trim(self.tax_rate.as_str()), reading) {
            Ok(_) => None,
            Err(e) => Some(e),
        }
    }

    /// What the amount and the tax rate allow: nothing while either is
    /// blank, else the refusal of the amount, else that of the tax rate,
    /// else both values. `base_reading` and `tax_reading` are what the
    /// trimmed amount and the trimmed tax rate read as.
    pub fn calculation_inputs(&self, base_reading: NumberReading, tax_reading: NumberReading) -> (inputs:
        CalculationInputs)
        ensures
            ({
                let base = trim_view(self@.base_amount);
                let tax = trim_view(self@.tax_rate);
                if base.len() == 0 || tax.len() == 0 {
                    inputs is Blank
                } else {
                    match (
                        non_negative_number_outcome(base_amount_field_name(), base, base_reading),
                        non_negative_number_outcome(tax_rate_field_name(), tax, tax_reading),
                    ) {
                        (Err(e), _) => inputs matches CalculationInputs::Refused(m) && m@ == e,
                        (Ok(_), Err(e)) => inputs matches CalculationInputs::Refused(m) && m@ == e,
                        (Ok(b), Ok(t)) => inputs == (CalculationInputs::Ready {
                            base_amount_bits: b,
                            tax_rate_percent_bits: t,
                        }),
                    }
                }
            }),
    {
        let base_amount = trim(self.base_amount.as_str());
        let tax_rate = trim(self.tax_rate.as_str());
        if base_amount.is_empty() || tax_rate.is_empty() {
            return CalculationInputs::Blank;
        }
        let base_amount_bits = match parse_non_negative_number("受け取りたい金額", base_amount, base_reading) {
            Ok(bits) => bits,
            Err(e) => {
                return CalculationInputs::Refused(e);
            },
        };
        match parse_non_negative_number("消費税率", tax_rate, tax_reading) {
            Ok(tax_rate_percent_bits) => CalculationInputs::Ready {
                base_amount_bits,
                tax_rate_percent_bits,
            },
            Err(e) => CalculationInputs::Refused(e),
        }
    }

    /// The registered sites themselves, in their order; their views are
    /// `self@.sites`.
    pub closed spec fn site_values(&self) -> Seq<SiteFee> {
        self.sites@
    }

    /// The sites behind the view are the registered sites.
    pub proof fn lemma_site_values_view(&self)
        ensures
            site_views(self.site_values()) == self@.sites,
    {
    }

    /// The rows of results that `inputs` give, with the message shown above
    /// them: no rows and no message while the inputs are blank, no rows and
    /// the refusal when a number was refused, and otherwise one row for
    /// each site, in the order of the sites, made by `row` from the site,
    /// the amount's bit pattern and the tax rate's, and no message.
    pub fn calculation_results<R, F: Fn(&SiteFee, u64, u64) -> R>(
        &self,
        inputs: CalculationInputs,
        row: F,
    ) -> (results: (Vec<R>, Option<String>))
        requires
            forall|site: &SiteFee, base_amount_bits: u64, tax_rate_percent_bits: u64|
                call_requires(row, (site, base_amount_bits, tax_rate_percent_bits)),
        ensures
            match inputs {
                CalculationInputs::Blank => results.0@.len() == 0 && results.1 is None,
                CalculationInputs::Refused(e) => {
                    &&& results.0@.len() == 0
                    &&& results.1 matches Some(m) && m@ == e@
                },
                CalculationInputs::Ready { base_amount_bits, tax_rate_percent_bits } => {
                    &&& results.1 is None
                    &&& results.0@.len() == self.site_values().len()
                    &&& forall|i: int|
                        0 <= i < self.site_values().len() ==> call_ensures(
                            row,
                            (&self.site_values()[i], base_amount_bits, tax_rate_percent_bits),
                            #[trigger] results.0@[i],
                        )
                },
            },
    {
        match inputs {
            CalculationInputs::Blank => {
                let rows: Vec<R> = Vec::new();
                (rows, None)
            },
            CalculationInputs::Refused(message) => {
                let rows: Vec<R> = Vec::new();
                (rows, Some(message))
            },
            CalculationInputs::Ready { base_amount_bits, tax_rate_percent_bits } => {
                let mut rows: Vec<R> = Vec::new();
                let n = self.sites.len();
                for i in 0..n
                    invariant
                        n == self.sites@.len(),
                        rows@.len() == i,
                        forall|site: &SiteFee, b: u64, t: u64| call_requires(row, (site, b, t)),
                        forall|k: int|
                            0 <= k < i ==> call_ensures(
                                row,
                                (&self.sites@[k], base_amount_bits, tax_rate_percent_bits),
                                #[trigger] rows@[k],
                            ),
                {
                    let r = row(&self.sites[i], base_amount_bits, tax_rate_percent_bits);
                    rows.push(r);
                }
                (rows, None)
            },
        }
    }

    /// The message for the site form: none while both fields are blank, a
    /// request for the name when only the fee is given, and otherwise the
    /// refusal of the trimmed fee, which reads as `fee_reading`.
    pub fn site_form_error(&self, fee_reading: NumberReading) -> (message: Option<String>)
        ensures
            message_view(message) == ({
                let name = trim_view(self@.site_name);
                let fee = trim_view(self@.site_fee);
                if name.len() == 0 && fee.len() == 0 {
                    None
                } else if name.len() == 0 {
                    Some(site_name_missing_message())
                } else {
                    refusal(fee_percent_outcome(fee, fee_reading))
                }
            }),
    {
        let site_name = trim(self.site_name.as_str());
        let site_fee = trim(self.site_fee.as_str());
        if site_name.is_empty() && site_fee.is_empty() {
            None
        } else if site_name.is_empty() {
            Some(String::from_str("依頼サイト名を入力してください"))
        } else {
            match validate_fee_percent(site_fee, fee_reading) {
                Ok(_) => None,
                Err(e) => Some(e),
            }
        }
    }
}

/// Every update that an action of the model asks for includes a redraw
/// whenever it asks for a save or for a refresh of the site form.
pub proof fn lemma_updates_notify_when_acting(
    m: ModelView,
    text: Seq<char>,
    tax_mode: InputTaxMode,
    rounding: RoundingMode,
    fee: Option<u64>,
    index: usize,
    fee_text: Seq<char>,
)
    ensures
        step_set_base_amount(m, text).1.notifies_when_acting(),
        step_set_tax_rate(m, text).1.notifies_when_acting(),
        step_set_site_name(m, text).1.notifies_when_acting(),
        step_set_site_fee(m, text).1.notifies_when_acting(),
        step_update_input_tax_mode(m, tax_mode).1.notifies_when_acting(),
        step_update_rounding_mode(m, rounding).1.notifies_when_acting(),
        step_add_or_update_site(m, fee).1.notifies_when_acting(),
        step_start_edit_site(m, index, fee_text).1.notifies_when_acting(),
        step_remove_site(m, index).1.notifies_when_acting(),
        step_cancel_edit(m).1.notifies_when_acting(),
        step_update_theme_name(m, text).1.notifies_when_acting(),
{
}

/// Giving a field the value it already holds changes nothing and asks for
/// nothing: repeating an edit is harmless.
pub proof fn lemma_repeated_edit_is_no_op(
    m: ModelView,
    text: Seq<char>,
    tax_mode: InputTaxMode,
    rounding: RoundingMode,
)
    ensures
        ({
            let once = step_set_base_amount(m, text).0;
            step_set_base_amount(once, text) == (once, update_none())
        }),
        ({
            let once = step_set_tax_rate(m, text).0;
            step_set_tax_rate(once, text) == (once, update_none())
        }),
        ({
            let once = step_set_site_name(m, text).0;
            step_set_site_name(once, text) == (once, update_none())
        }),
        ({
            let once = step_set_site_fee(m, text).0;
            step_set_site_fee(once, text) == (once, update_none())
        }),
        ({
            let once = step_update_input_tax_mode(m, tax_mode).0;
            step_update_input_tax_mode(once, tax_mode) == (once, update_none())
        }),
        ({
            let once = step_update_rounding_mode(m, rounding).0;
            step_update_rounding_mode(once, rounding) == (once, update_none())
        }),
        ({
            let once = step_update_theme_name(m, text).0;
            step_update_theme_name(once, text) == (once, update_none())
        }),
{
}

/// The model built from saved settings saves exactly those settings again.
pub proof fn lemma_config_round_trip(c: ConfigView)
    ensures
        config_of(model_from_config(c)) == c,
{
}

/// Every action that changes a saved setting other than the amount to
/// receive asks for a save: an action that asks for none leaves the saved
/// settings as they were, but for that amount.
pub proof fn lemma_changes_to_settings_are_saved(
    m: ModelView,
    text: Seq<char>,
    tax_mode: InputTaxMode,
    rounding: RoundingMode,
    fee: Option<u64>,
    index: usize,
    fee_text: Seq<char>,
)
    ensures
        ({
            let (after, update) = step_set_base_amount(m, text);
            !update.should_persist ==> config_of(after) == ConfigView {
                base_amount: after.base_amount,
                ..config_of(m)
            }
        }),
        ({
            let (after, update) = step_set_tax_rate(m, text);
            !update.should_persist ==> config_of(after) == config_of(m)
        }),
        ({
            let (after, update) = step_set_site_name(m, text);
            !update.should_persist ==> config_of(after) == config_of(m)
        }),
        ({
            let (after, update) = step_set_site_fee(m, text);
            !update.should_persist ==> config_of(after) == config_of(m)
        }),
        ({
            let (after, update) = step_update_input_tax_mode(m, tax_mode);
            !update.should_persist ==> config_of(after) == config_of(m)
        }),
        ({
            let (after, update) = step_update_rounding_mode(m, rounding);
            !update.should_persist ==> config_of(after) == config_of(m)
        }),
        ({
            let (after, update) = step_add_or_update_site(m, fee);
            !update.should_persist ==> config_of(after) == config_of(m)
        }),
        ({
            let (after, update) = step_start_edit_site(m, index, fee_text);
            !update.should_persist ==> config_of(after) == config_of(m)
        }),
        ({
            let (after, update) = step_remove_site(m, index);
            !update.should_persist ==> config_of(after) == config_of(m)
        }),
        ({
            let (after, update) = step_cancel_edit(m);
            !update.should_persist ==> config_of(after) == config_of(m)
        }),
{
}

/// Removing the site that was just added gives back the sites from before.
pub proof fn lemma_remove_undoes_add(m: ModelView, fee_percent_bits: u64, index: usize)
    requires
        m.editing_index is None,
        trim_view(m.site_name).len() > 0,
        index == m.sites.len(),
    ensures
        ({
            let added = step_add_or_update_site(m, Some(fee_percent_bits)).0;
            &&& added.sites.len() == m.sites.len() + 1
            &&& step_remove_site(added, index).0.sites == m.sites
        }),
{
    let added = step_add_or_update_site(m, Some(fee_percent_bits)).0;
    assert(added.sites.remove(index as int) =~= m.sites);
}

/// Starting to edit a site and submitting the form with an accepted fee
/// replaces that site in place: the count of sites and every other site stay
/// as they were, and the form is left empty.
pub proof fn lemma_edit_replaces_in_place(
    m: ModelView,
    index: usize,
    fee_text: Seq<char>,
    fee_percent_bits: u64,
)
    requires
        index < m.sites.len(),
        trim_view(m.sites[index as int].name).len() > 0,
    ensures
        ({
            let editing = step_start_edit_site(m, index, fee_text).0;
            let (after, update) = step_add_or_update_site(editing, Some(fee_percent_bits));
            &&& after.sites.len() == m.sites.len()
            &&& after.sites[index as int] == SiteFeeView {
                name: trim_view(m.sites[index as int].name),
                fee_percent_bits: fee_percent_bits,
            }
            &&& forall|j: int| 0 <= j < m.sites.len() && j != index ==> after.sites[j] == m.sites[j]
            &&& after.editing_index is None
            &&& after.site_name.len() == 0
            &&& after.site_fee.len() == 0
            &&& update == update_persist_and_sync_site_form()
        }),
{
}

/// Leaving the form after starting to edit a site empties the form and keeps
/// the sites and the rest of the model as they were.
pub proof fn lemma_cancel_after_start_edit(m: ModelView, index: usize, fee_text: Seq<char>)
    requires
        index < m.sites.len(),
    ensures
        step_cancel_edit(step_start_edit_site(m, index, fee_text).0) == (
            with_site_form_cleared(m),
            update_sync_site_form(),
        ),
{
}

/// The site form stores only accepted fees: whenever submitting it changes
/// the sites, the fee field read as a number that is neither below zero nor
/// one hundred or more, and the site's name is not blank.
pub proof fn lemma_form_stores_only_accepted_fees(m: ModelView, fee_reading: NumberReading)
    ensures
        ({
            let fee = accepted(fee_percent_outcome(trim_view(m.site_fee), fee_reading));
            let (after, _) = step_add_or_update_site(m, fee);
            after.sites != m.sites ==> {
                &&& fee_reading matches NumberReading::Number {
                    below_zero: false,
                    at_least_hundred: false,
                    ..
                }
                &&& trim_view(m.site_fee).len() > 0
                &&& trim_view(m.site_name).len() > 0
            }
        }),
{
}

/// The chosen theme changes only when a theme is chosen: every other action
/// keeps it, so a choice stays in force until the next one.
pub proof fn lemma_theme_kept_by_other_actions(
    m: ModelView,
    text: Seq<char>,
    tax_mode: InputTaxMode,
    rounding: RoundingMode,
    fee: Option<u64>,
    index: usize,
    fee_text: Seq<char>,
)
    ensures
        step_set_base_amount(m, text).0.theme_name == m.theme_name,
        step_set_tax_rate(m, text).0.theme_name == m.theme_name,
        step_set_site_name(m, text).0.theme_name == m.theme_name,
        step_set_site_fee(m, text).0.theme_name == m.theme_name,
        step_update_input_tax_mode(m, tax_mode).0.theme_name == m.theme_name,
        step_update_rounding_mode(m, rounding).0.theme_name == m.theme_name,
        step_add_or_update_site(m, fee).0.theme_name == m.theme_name,
        step_start_edit_site(m, index, fee_text).0.theme_name == m.theme_name,
        step_remove_site(m, index).0.theme_name == m.theme_name,
        step_cancel_edit(m).0.theme_name == m.theme_name,
        step_update_theme_name(m, text).0.theme_name == Some(text),
{
}

/// Removing site `index` of the list deletes exactly that site: the list
/// gets one shorter, the sites before `index` keep their places, and those
/// after it move up by one. A removal past the end changes nothing.
pub proof fn lemma_remove_deletes_that_site(m: ModelView, index: usize)
    ensures
        ({
            let (after, update) = step_remove_site(m, index);
            if index < m.sites.len() {
                &&& after.sites.len() == m.sites.len() - 1
                &&& forall|j: int| 0 <= j < index ==> after.sites[j] == m.sites[j]
                &&& forall|j: int| index <= j < after.sites.len() ==> after.sites[j] == m.sites[j + 1]
                &&& update.should_persist
            } else {
                after == m && update == update_none()
            }
        }),
{
}

/// Typing a text into any of the four text fields leaves exactly that text
/// in the field, the empty text included; the rest of the model stays as it
/// was, and nothing is asked for only when the field already held that text.
pub proof fn lemma_typing_sets_the_field(m: ModelView, v: Seq<char>)
    ensures
        ({
            let (after, update) = step_set_base_amount(m, v);
            &&& after.base_amount == v
            &&& ModelView { base_amount: m.base_amount, ..after } == m
            &&& (update == update_none() <==> m.base_amount == v)
        }),
        ({
            let (after, update) = step_set_tax_rate(m, v);
            &&& after.tax_rate == v
            &&& ModelView { tax_rate: m.tax_rate, ..after } == m
            &&& (update == update_none() <==> m.tax_rate == v)
        }),
        ({
            let (after, update) = step_set_site_name(m, v);
            &&& after.site_name == v
            &&& ModelView { site_name: m.site_name, ..after } == m
            &&& (update == update_none() <==> m.site_name == v)
        }),
        ({
            let (after, update) = step_set_site_fee(m, v);
            &&& after.site_fee == v
            &&& ModelView { site_fee: m.site_fee, ..after } == m
            &&& (update == update_none() <==> m.site_fee == v)
        }),
{
}

/// Starting to edit an existing site loads that site into the form whatever
/// the form held before: its name, and its fee text without the zeros that
/// end the fraction. Two models with the same sites give the same form.
pub proof fn lemma_start_edit_loads_the_site(
    m: ModelView,
    other: ModelView,
    index: usize,
    fee_text: Seq<char>,
)
    requires
        index < m.sites.len(),
        other.sites == m.sites,
    ensures
        ({
            let (after, update) = step_start_edit_site(m, index, fee_text);
            &&& after.editing_index == Some(index)
            &&& after.site_name == m.sites[index as int].name
            &&& after.site_fee == trailing_zero_trimmed(fee_text)
            &&& after.sites == m.sites
            &&& update.should_sync_site_form
        }),
        ({
            let (after, _) = step_start_edit_site(m, index, fee_text);
            let (other_after, _) = step_start_edit_site(other, index, fee_text);
            &&& after.site_name == other_after.site_name
            &&& after.site_fee == other_after.site_fee
            &&& after.editing_index == other_after.editing_index
        }),
{
}

} // verus!
