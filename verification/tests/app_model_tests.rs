use fee_backcalc::{
    AppConfig, AppModel, CalculationInputs, InputTaxMode, ModelUpdate, NumberReading, RoundingMode,
    SiteFee,
};

/// What a number text that parses to `value` reads as.
fn reading(value: f64) -> NumberReading {
    NumberReading::Number {
        bits: value.to_bits(),
        below_zero: value < 0.0,
        at_least_hundred: value >= 100.0,
    }
}

fn shop_config() -> AppConfig {
    AppConfig {
        base_amount: String::new(),
        input_tax_mode: InputTaxMode::TaxExclusive,
        tax_rate: "10".to_string(),
        rounding_mode: RoundingMode::Round,
        sites: vec![SiteFee { name: "Shop".to_string(), fee_percent_bits: 12.5f64.to_bits() }],
    }
}

#[test]
fn app_model_restores_config_and_roundtrips_it() {
    let config = AppConfig {
        base_amount: "5000".to_string(),
        input_tax_mode: InputTaxMode::TaxInclusive,
        tax_rate: "8".to_string(),
        rounding_mode: RoundingMode::Ceil,
        sites: vec![SiteFee { name: "Shop".to_string(), fee_percent_bits: 12.5f64.to_bits() }],
    };

    let model = AppModel::from_config(config.clone());

    assert_eq!(model.base_amount(), "5000");
    assert_eq!(model.tax_rate(), "8");
    assert_eq!(model.input_tax_mode(), InputTaxMode::TaxInclusive);
    assert_eq!(model.rounding_mode(), RoundingMode::Ceil);
    assert_eq!(model.sites(), config.sites.as_slice());
    assert_eq!(model.to_config(), config);
}

#[test]
fn app_model_adds_updates_and_removes_sites() {
    let mut model = AppModel::from_config(AppConfig::default());

    model.set_site_name("CrowdWorks".to_string());
    model.set_site_fee("20".to_string());
    let add_update = model.add_or_update_site(reading(20.0));
    assert!(add_update.should_persist);
    assert!(add_update.should_sync_site_form);
    assert_eq!(model.sites().len(), 1);
    assert_eq!(model.sites()[0].name, "CrowdWorks");

    let edit_update = model.start_edit_site(0, "20.0000");
    assert!(edit_update.should_sync_site_form);
    assert_eq!(model.site_name(), "CrowdWorks");
    assert_eq!(model.site_fee(), "20");

    model.set_site_name("Lancers".to_string());
    model.set_site_fee("15".to_string());
    model.add_or_update_site(reading(15.0));
    assert_eq!(model.sites()[0].name, "Lancers");
    assert_eq!(f64::from_bits(model.sites()[0].fee_percent_bits), 15.0);

    model.start_edit_site(0, "15.0000");
    let remove_update = model.remove_site(0);
    assert!(remove_update.should_persist);
    assert!(remove_update.should_sync_site_form);
    assert!(model.sites().is_empty());
    assert_eq!(model.editing_index(), None);
}

#[test]
fn app_model_cancel_edit_clears_site_form_state() {
    let mut model = AppModel::from_config(shop_config());

    model.start_edit_site(0, "12.5000");
    let update = model.cancel_edit();

    assert!(update.should_sync_site_form);
    assert_eq!(model.editing_index(), None);
    assert_eq!(model.site_name(), "");
    assert_eq!(model.site_fee(), "");
}

#[test]
fn setting_the_same_text_again_asks_for_nothing() {
    let mut model = AppModel::from_config(AppConfig::default());
    assert_eq!(model.set_base_amount("1000".to_string()), ModelUpdate::notify());
    assert_eq!(model.set_base_amount("1000".to_string()), ModelUpdate::none());
    assert_eq!(model.set_tax_rate("8".to_string()), ModelUpdate::persist());
    assert_eq!(model.set_tax_rate("8".to_string()), ModelUpdate::none());
    assert_eq!(model.set_site_name("A".to_string()), ModelUpdate::notify());
    assert_eq!(model.set_site_name("A".to_string()), ModelUpdate::none());
    assert_eq!(model.set_site_fee("5".to_string()), ModelUpdate::notify());
    assert_eq!(model.set_site_fee("5".to_string()), ModelUpdate::none());
    assert_eq!(model.update_input_tax_mode(InputTaxMode::TaxInclusive), ModelUpdate::persist());
    assert_eq!(model.update_input_tax_mode(InputTaxMode::TaxInclusive), ModelUpdate::none());
    assert_eq!(model.update_rounding_mode(RoundingMode::Floor), ModelUpdate::persist());
    assert_eq!(model.update_rounding_mode(RoundingMode::Floor), ModelUpdate::none());
    assert_eq!(model.base_amount(), "1000");
    assert_eq!(model.tax_rate(), "8");
    assert_eq!(model.input_tax_mode(), InputTaxMode::TaxInclusive);
    assert_eq!(model.rounding_mode(), RoundingMode::Floor);
}

#[test]
fn submitting_with_blank_name_or_refused_fee_changes_nothing() {
    let mut model = AppModel::from_config(AppConfig::default());
    model.set_site_name("   ".to_string());
    model.set_site_fee("10".to_string());
    assert_eq!(model.add_or_update_site(reading(10.0)), ModelUpdate::notify());
    assert!(model.sites().is_empty());
    assert_eq!(model.site_fee(), "10");

    model.set_site_name("A".to_string());
    model.set_site_fee("100".to_string());
    assert_eq!(model.add_or_update_site(reading(100.0)), ModelUpdate::notify());
    model.set_site_fee("abc".to_string());
    assert_eq!(model.add_or_update_site(NumberReading::NotANumber), ModelUpdate::notify());
    model.set_site_fee("-1".to_string());
    assert_eq!(model.add_or_update_site(reading(-1.0)), ModelUpdate::notify());
    model.set_site_fee("".to_string());
    assert_eq!(model.add_or_update_site(reading(1.0)), ModelUpdate::notify());
    assert!(model.sites().is_empty());
    assert_eq!(model.site_name(), "A");
}

#[test]
fn submitted_site_name_is_trimmed_and_form_is_cleared() {
    let mut model = AppModel::from_config(AppConfig::default());
    model.set_site_name("  ココナラ  ".to_string());
    model.set_site_fee(" 22 ".to_string());
    let update = model.add_or_update_site(reading(22.0));
    assert_eq!(update, ModelUpdate::persist_and_sync_site_form());
    assert_eq!(model.sites()[0].name, "ココナラ");
    assert_eq!(model.sites()[0].fee_percent_bits, 22.0f64.to_bits());
    assert_eq!(model.site_name(), "");
    assert_eq!(model.site_fee(), "");
    assert_eq!(model.editing_index(), None);
}

#[test]
fn removing_the_added_site_restores_the_list() {
    let mut model = AppModel::from_config(shop_config());
    let before = model.to_config();
    model.set_site_name("New".to_string());
    model.set_site_fee("3".to_string());
    model.add_or_update_site(reading(3.0));
    assert_eq!(model.sites().len(), 2);
    assert_eq!(model.remove_site(1), ModelUpdate::persist());
    assert_eq!(model.to_config(), before);
}

#[test]
fn removing_out_of_range_or_another_site_keeps_the_form() {
    let mut model = AppModel::from_config(shop_config());
    assert_eq!(model.remove_site(1), ModelUpdate::none());
    model.set_site_name("Second".to_string());
    model.set_site_fee("1".to_string());
    model.add_or_update_site(reading(1.0));
    model.start_edit_site(1, "1.0000");
    assert_eq!(model.remove_site(0), ModelUpdate::persist());
    assert_eq!(model.sites().len(), 1);
    assert_eq!(model.editing_index(), Some(1));
    assert_eq!(model.site_name(), "Second");
    assert!(model.editing_site().is_none());
}

#[test]
fn start_edit_out_of_range_does_nothing() {
    let mut model = AppModel::from_config(shop_config());
    assert_eq!(model.start_edit_site(3, "1.0000"), ModelUpdate::none());
    assert_eq!(model.editing_index(), None);
    assert_eq!(model.cancel_edit(), ModelUpdate::none());
}

#[test]
fn editing_site_follows_the_editing_index() {
    let mut model = AppModel::from_config(shop_config());
    assert!(model.editing_site().is_none());
    model.start_edit_site(0, "12.5000");
    assert_eq!(model.editing_site().map(|site| site.name.as_str()), Some("Shop"));
    assert_eq!(model.site_fee(), "12.5");
}

#[test]
fn site_form_error_reports_missing_name_then_fee_refusal() {
    let mut model = AppModel::from_config(AppConfig::default());
    assert_eq!(model.site_form_error(NumberReading::NotANumber), None);
    model.set_site_fee("20".to_string());
    assert_eq!(
        model.site_form_error(reading(20.0)),
        Some("依頼サイト名を入力してください".to_string())
    );
    model.set_site_name("A".to_string());
    assert_eq!(model.site_form_error(reading(20.0)), None);
    model.set_site_fee("2x".to_string());
    assert_eq!(
        model.site_form_error(NumberReading::NotANumber),
        Some("手数料率は数値で入力してください".to_string())
    );
    model.set_site_fee("150".to_string());
    assert_eq!(
        model.site_form_error(reading(150.0)),
        Some("手数料率は100未満で入力してください".to_string())
    );
    model.set_site_fee(" ".to_string());
    assert_eq!(
        model.site_form_error(NumberReading::NotANumber),
        Some("手数料率を入力してください".to_string())
    );
}

#[test]
fn base_amount_error_is_silent_while_blank() {
    let mut model = AppModel::from_config(AppConfig::default());
    assert_eq!(model.base_amount_error(NumberReading::NotANumber), None);
    model.set_base_amount(" -5 ".to_string());
    assert_eq!(
        model.base_amount_error(reading(-5.0)),
        Some("受け取りたい金額は0以上で入力してください".to_string())
    );
    model.set_base_amount("5".to_string());
    assert_eq!(model.base_amount_error(reading(5.0)), None);
}

#[test]
fn tax_rate_error_reports_blank_and_invalid_rates() {
    let mut model = AppModel::from_config(AppConfig::default());
    assert_eq!(model.tax_rate_error(reading(10.0)), None);
    model.set_tax_rate("".to_string());
    assert_eq!(
        model.tax_rate_error(NumberReading::NotANumber),
        Some("消費税率を入力してください".to_string())
    );
    model.set_tax_rate("ten".to_string());
    assert_eq!(
        model.tax_rate_error(NumberReading::NotANumber),
        Some("消費税率は数値で入力してください".to_string())
    );
}

#[test]
fn app_model_clears_results_for_invalid_input_and_recovers() {
    let config = AppConfig {
        base_amount: "1000".to_string(),
        input_tax_mode: InputTaxMode::TaxExclusive,
        tax_rate: "10".to_string(),
        rounding_mode: RoundingMode::Round,
        sites: vec![SiteFee { name: "Shop".to_string(), fee_percent_bits: 10.0f64.to_bits() }],
    };
    let mut model = AppModel::from_config(config);
    let results = |model: &AppModel, tax: f64| {
        let inputs = model.calculation_inputs(reading(1000.0), reading(tax));
        model.calculation_results(inputs, |site: &SiteFee, base, rate| {
            (site.name.clone(), f64::from_bits(base), f64::from_bits(rate))
        })
    };

    let (rows, error) = results(&model, 10.0);
    assert_eq!(rows.len(), 1);
    assert_eq!(rows[0], ("Shop".to_string(), 1000.0, 10.0));
    assert_eq!(error, None);

    model.set_tax_rate("-1".to_string());
    let (rows, error) = results(&model, -1.0);
    assert!(rows.is_empty());
    assert_eq!(error.as_deref(), Some("消費税率は0以上で入力してください"));

    model.set_tax_rate("10".to_string());
    let (rows, error) = results(&model, 10.0);
    assert_eq!(error, None);
    assert_eq!(rows.len(), 1);
}

#[test]
fn blank_inputs_give_no_rows_and_no_message() {
    let mut model = AppModel::from_config(shop_config());
    let inputs = model.calculation_inputs(NumberReading::NotANumber, reading(10.0));
    let (rows, error) = model.calculation_results(inputs, |_: &SiteFee, _, _| 0u8);
    assert!(rows.is_empty());
    assert_eq!(error, None);
    model.set_base_amount("500".to_string());
    model.set_site_name("Second".to_string());
    model.set_site_fee("5".to_string());
    model.add_or_update_site(reading(5.0));
    let inputs = model.calculation_inputs(reading(500.0), reading(10.0));
    let (rows, error) = model.calculation_results(inputs, |site: &SiteFee, _, _| site.name.clone());
    assert_eq!(rows, vec!["Shop".to_string(), "Second".to_string()]);
    assert_eq!(error, None);
}

#[test]
fn calculation_inputs_prefers_blank_then_amount_then_rate() {
    let mut model = AppModel::from_config(shop_config());
    assert_eq!(
        model.calculation_inputs(NumberReading::NotANumber, NumberReading::NotANumber),
        CalculationInputs::Blank
    );
    model.set_base_amount("abc".to_string());
    model.set_tax_rate("-1".to_string());
    assert_eq!(
        model.calculation_inputs(NumberReading::NotANumber, reading(-1.0)),
        CalculationInputs::Refused("受け取りたい金額は数値で入力してください".to_string())
    );
    model.set_tax_rate("   ".to_string());
    assert_eq!(
        model.calculation_inputs(NumberReading::NotANumber, NumberReading::NotANumber),
        CalculationInputs::Blank
    );
}

#[test]
fn editing_a_site_replaces_it_in_place() {
    let mut config = shop_config();
    config.sites.push(SiteFee { name: "B".to_string(), fee_percent_bits: 7.0f64.to_bits() });
    let mut model = AppModel::from_config(config);
    model.start_edit_site(0, "12.5000");
    model.set_site_fee("13".to_string());
    assert_eq!(model.add_or_update_site(reading(13.0)), ModelUpdate::persist_and_sync_site_form());
    assert_eq!(model.sites().len(), 2);
    assert_eq!(model.sites()[0].name, "Shop");
    assert_eq!(model.sites()[0].fee_percent_bits, 13.0f64.to_bits());
    assert_eq!(model.sites()[1].name, "B");
    assert_eq!(model.editing_index(), None);
}

#[test]
fn choosing_a_theme_is_saved_once() {
    let mut model = AppModel::from_config(AppConfig::default());
    assert_eq!(model.theme_name(), None);
    assert_eq!(model.update_theme_name("Ayu Dark".to_string()), ModelUpdate::persist());
    assert_eq!(model.theme_name(), Some("Ayu Dark"));
    assert_eq!(model.update_theme_name("Ayu Dark".to_string()), ModelUpdate::none());
    assert_eq!(model.update_theme_name("Gruvbox".to_string()), ModelUpdate::persist());
    assert_eq!(model.theme_name(), Some("Gruvbox"));
    assert_eq!(model.to_config(), AppConfig::default());
}

#[test]
fn form_edits_leave_saved_settings_alone() {
    let mut model = AppModel::from_config(shop_config());
    let saved = model.to_config();
    assert!(!model.set_site_name("Draft".to_string()).should_persist);
    assert!(!model.set_site_fee("9".to_string()).should_persist);
    assert!(!model.start_edit_site(0, "12.5000").should_persist);
    assert!(!model.cancel_edit().should_persist);
    assert_eq!(model.to_config(), saved);
    assert!(!model.set_base_amount("300".to_string()).should_persist);
    assert_eq!(model.to_config().tax_rate, saved.tax_rate);
    assert_eq!(model.to_config().sites, saved.sites);
}

#[test]
fn cloned_model_equals_its_source() {
    let mut model = AppModel::from_config(shop_config());
    model.start_edit_site(0, "12.5000");
    model.update_theme_name("Ayu Dark".to_string());
    let copy = model.clone();
    assert_eq!(copy, model);
    assert_eq!(copy.site_fee(), "12.5");
    assert_eq!(copy.theme_name(), Some("Ayu Dark"));
}
