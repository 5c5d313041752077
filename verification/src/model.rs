use vstd::prelude::*;

verus! {

/// How the amount that the user wants to receive is entered.
#[derive(Clone, Copy, Debug, PartialEq, Eq, Structural)]
pub enum InputTaxMode {
    /// The amount excludes consumption tax, which is added on top.
    TaxExclusive,
    /// The amount already includes consumption tax.
    TaxInclusive,
}

impl InputTaxMode {
    /// The text shown for this mode in the user interface.
    pub open spec fn label_text(self) -> Seq<char> {
        match self {
            InputTaxMode::TaxExclusive => "税抜きで入力"@,
            InputTaxMode::TaxInclusive => "税込みで入力"@,
        }
    }

    /// The label of this mode.
    pub fn label(self) -> (label: &'static str)
        ensures
            label@ == self.label_text(),
    {
        match self {
            InputTaxMode::TaxExclusive => "税抜きで入力",
            InputTaxMode::TaxInclusive => "税込みで入力",
        }
    }
}

/// How fractional yen are rounded to whole yen.
#[derive(Clone, Copy, Debug, PartialEq, Eq, Structural)]
pub enum RoundingMode {
    /// Round half away from zero.
    Round,
    /// Round up.
    Ceil,
    /// Round down.
    Floor,
}

impl RoundingMode {
    /// The text shown for this mode in the user interface.
    pub open spec fn label_text(self) -> Seq<char> {
        match self {
            RoundingMode::Round => "四捨五入"@,
            RoundingMode::Ceil => "切り上げ"@,
            RoundingMode::Floor => "切り捨て"@,
        }
    }

    /// The label of this mode.
    pub fn label(self) -> (label: &'static str)
        ensures
            label@ == self.label_text(),
    {
        match self {
            RoundingMode::Round => "四捨五入",
            RoundingMode::Ceil => "切り上げ",
            RoundingMode::Floor => "切り捨て",
        }
    }
}

/// A site through which work is ordered, and the fee it deducts.
///
/// The fee percentage is a binary64 floating-point number; the library keeps
/// it as its IEEE 754 bit pattern (what `f64::to_bits` gives), which it
/// stores and hands back without interpreting it. Two sites are equal when
/// their names are equal and their fees are equal as numbers.
#[derive(Debug)]
pub struct SiteFee {
    /// The site's name.
    pub name: String,
    /// The bit pattern of the fee percentage (for example that of `20.0` for
    /// a fee of 20 %).
    pub fee_percent_bits: u64,
}

/// What a [`SiteFee`] holds, as plain values.
pub struct SiteFeeView {
    pub name: Seq<char>,
    pub fee_percent_bits: u64,
}

impl View for SiteFee {
    type V = SiteFeeView;

    open spec fn view(&self) -> SiteFeeView {
        SiteFeeView { name: self.name@, fee_percent_bits: self.fee_percent_bits }
    }
}

impl Clone for SiteFee {
    fn clone(&self) -> (copy: Self)
        ensures
            copy == *self,
    {
        SiteFee { name: self.name.clone(), fee_percent_bits: self.fee_percent_bits }
    }
}

/// Whether the binary64 number with the bit pattern `bits` is NaN: all
/// exponent bits set and a fraction other than zero.
pub open spec fn bits_are_nan(bits: u64) -> bool {
    (bits & 0x7ff0_0000_0000_0000u64) == 0x7ff0_0000_0000_0000u64 && (bits
        & 0x000f_ffff_ffff_ffffu64) != 0
}

/// Whether the binary64 numbers with the bit patterns `a` and `b` are equal
/// as IEEE 754 (and `==` on `f64`) compares them: NaN equals nothing, the
/// two zeros are equal, and any other number equals only itself.
pub open spec fn fee_bits_equal(a: u64, b: u64) -> bool {
    &&& !bits_are_nan(a)
    &&& !bits_are_nan(b)
    &&& (a == b || ((a & 0x7fff_ffff_ffff_ffffu64) == 0 && (b & 0x7fff_ffff_ffff_ffffu64) == 0))
}

/// Compares two fees, given as bit patterns, as numbers.
fn fees_equal(a: u64, b: u64) -> (equal: bool)
    ensures
        equal == fee_bits_equal(a, b),
{
    let a_nan = (a & 0x7ff0_0000_0000_0000u64) == 0x7ff0_0000_0000_0000u64 && (a
        & 0x000f_ffff_ffff_ffffu64) != 0;
    let b_nan = (b & 0x7ff0_0000_0000_0000u64) == 0x7ff0_0000_0000_0000u64 && (b
        & 0x000f_ffff_ffff_ffffu64) != 0;
    !a_nan && !b_nan && (a == b || ((a & 0x7fff_ffff_ffff_ffffu64) == 0 && (b
        & 0x7fff_ffff_ffff_ffffu64) == 0))
}

impl PartialEq for SiteFee {
    fn eq(&self, other: &Self) -> (equal: bool) {
        self.name == other.name && fees_equal(self.fee_percent_bits, other.fee_percent_bits)
    }
}

impl vstd::std_specs::cmp::PartialEqSpecImpl for SiteFee {
    open spec fn obeys_eq_spec() -> bool {
        true
    }

    open spec fn eq_spec(&self, other: &Self) -> bool {
        self.name@ == other.name@ && fee_bits_equal(self.fee_percent_bits, other.fee_percent_bits)
    }
}

/// The views of a list of sites.
pub open spec fn site_views(sites: Seq<SiteFee>) -> Seq<SiteFeeView> {
    sites.map_values(|site: SiteFee| site@)
}

/// A copy of `sites`, site by site.
pub fn clone_sites(sites: &Vec<SiteFee>) -> (copy: Vec<SiteFee>)
    ensures
        copy@ == sites@,
{
    let mut copy: Vec<SiteFee> = Vec::new();
    let n = sites.len();
    for i in 0..n
        invariant
            n == sites@.len(),
            copy@ == sites@.subrange(0, i as int),
    {
        copy.push(sites[i].clone());
        assert(copy@ =~= sites@.subrange(0, i + 1));
    }
    assert(sites@.subrange(0, n as int) =~= sites@);
    copy
}

/// The settings that are saved between runs.
#[derive(Debug, PartialEq)]
pub struct AppConfig {
    /// The amount one wants to receive, as typed.
    pub base_amount: String,
    /// Whether that amount includes consumption tax.
    pub input_tax_mode: InputTaxMode,
    /// The consumption tax rate in percent, as typed.
    pub tax_rate: String,
    /// How fractions of a yen are rounded.
    pub rounding_mode: RoundingMode,
    /// The registered sites.
    pub sites: Vec<SiteFee>,
}

/// What an [`AppConfig`] holds, as plain values.
pub struct ConfigView {
    pub base_amount: Seq<char>,
    pub input_tax_mode: InputTaxMode,
    pub tax_rate: Seq<char>,
    pub rounding_mode: RoundingMode,
    pub sites: Seq<SiteFeeView>,
}

impl View for AppConfig {
    type V = ConfigView;

    open spec fn view(&self) -> ConfigView {
        ConfigView {
            base_amount: self.base_amount@,
            input_tax_mode: self.input_tax_mode,
            tax_rate: self.tax_rate@,
            rounding_mode: self.rounding_mode,
            sites: site_views(self.sites@),
        }
    }
}

impl Clone for AppConfig {
    fn clone(&self) -> (copy: Self)
        ensures
            copy@ == self@,
    {
        AppConfig {
            base_amount: self.base_amount.clone(),
            input_tax_mode: self.input_tax_mode,
            tax_rate: self.tax_rate.clone(),
            rounding_mode: self.rounding_mode,
            sites: clone_sites(&self.sites),
        }
    }
}

/// The settings of a first run: no amount, amounts entered without tax, a
/// tax rate of 10 %, rounding half away from zero, and no sites.
pub open spec fn default_config() -> ConfigView {
    ConfigView {
        base_amount: Seq::empty(),
        input_tax_mode: InputTaxMode::TaxExclusive,
        tax_rate: "10"@,
        rounding_mode: RoundingMode::Round,
        sites: Seq::empty(),
    }
}

impl Default for AppConfig {
    fn default() -> (config: Self)
        ensures
            config@ == default_config(),
    {
        let sites: Vec<SiteFee> = Vec::new();
        let config = AppConfig {
            base_amount: String::new(),
            input_tax_mode: InputTaxMode::TaxExclusive,
            tax_rate: String::from_str("10"),
            rounding_mode: RoundingMode::Round,
            sites,
        };
        assert(site_views(config.sites@) =~= Seq::<SiteFeeView>::empty());
        config
    }
}

} // verus!
