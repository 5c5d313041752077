use fee_backcalc::{AppConfig, InputTaxMode, ModelUpdate, RoundingMode, SiteFee};

#[test]
fn labels_name_each_mode() {
    assert_eq!(InputTaxMode::TaxExclusive.label(), "税抜きで入力");
    assert_eq!(InputTaxMode::TaxInclusive.label(), "税込みで入力");
    assert_eq!(RoundingMode::Round.label(), "四捨五入");
    assert_eq!(RoundingMode::Ceil.label(), "切り上げ");
    assert_eq!(RoundingMode::Floor.label(), "切り捨て");
}

#[test]
fn default_config_matches_first_run() {
    let config = AppConfig::default();
    assert_eq!(config.base_amount, "");
    assert_eq!(config.input_tax_mode, InputTaxMode::TaxExclusive);
    assert_eq!(config.tax_rate, "10");
    assert_eq!(config.rounding_mode, RoundingMode::Round);
    assert!(config.sites.is_empty());
}

#[test]
fn cloned_config_equals_its_source() {
    let config = AppConfig {
        base_amount: "1234".to_string(),
        input_tax_mode: InputTaxMode::TaxInclusive,
        tax_rate: "8".to_string(),
        rounding_mode: RoundingMode::Floor,
        sites: vec![
            SiteFee { name: "Shop".to_string(), fee_percent_bits: 12.5f64.to_bits() },
            SiteFee { name: "Other".to_string(), fee_percent_bits: 5.0f64.to_bits() },
        ],
    };
    assert_eq!(config.clone(), config);
    assert_eq!(config.sites[1].clone(), config.sites[1]);
}

#[test]
fn model_update_constructors_set_their_flags() {
    let none = ModelUpdate::none();
    assert!(!none.should_notify && !none.should_persist && !none.should_sync_site_form);
    let notify = ModelUpdate::notify();
    assert!(notify.should_notify && !notify.should_persist && !notify.should_sync_site_form);
    let persist = ModelUpdate::persist();
    assert!(persist.should_notify && persist.should_persist && !persist.should_sync_site_form);
    let sync = ModelUpdate::sync_site_form();
    assert!(sync.should_notify && !sync.should_persist && sync.should_sync_site_form);
    let both = ModelUpdate::persist_and_sync_site_form();
    assert!(both.should_notify && both.should_persist && both.should_sync_site_form);
    assert_eq!(ModelUpdate::default(), none);
}

#[test]
fn site_fees_compare_as_numbers() {
    let site = |bits: u64| SiteFee { name: "A".to_string(), fee_percent_bits: bits };
    assert_eq!(site(0.0f64.to_bits()), site((-0.0f64).to_bits()));
    assert_ne!(site(f64::NAN.to_bits()), site(f64::NAN.to_bits()));
    assert_eq!(site(12.5f64.to_bits()), site(12.5f64.to_bits()));
    assert_ne!(site(12.5f64.to_bits()), site(12.0f64.to_bits()));
    assert_ne!(
        site(1.0f64.to_bits()),
        SiteFee { name: "B".to_string(), fee_percent_bits: 1.0f64.to_bits() }
    );
    assert_eq!(site(f64::INFINITY.to_bits()), site(f64::INFINITY.to_bits()));
}
