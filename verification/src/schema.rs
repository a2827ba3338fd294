//! The category tags and the extraction schema bound to each of them.
//!
//! Every category source has its own physical layout. A `CategorySchema`
//! records where the identifying fields live inside such a source: which
//! sheets to read, which columns hold identifiers, an optional name column,
//! how many leading rows to skip, and an optional dynamic header-detection
//! rule used when the skip count must be discovered rather than assumed.

use vstd::prelude::*;

verus! {

/// The closed set of hardship/eligibility classification kinds.
#[derive(Debug, Clone, Copy, PartialEq, Eq, Hash, Structural)]
pub enum DifficultyType {
    PovertyAlleviatedContinuePolicy,
    PovertyAlleviatedNoPolicy,
    DisabledWithCertificate,
    RuralMinimumLiving,
    UrbanMinimumLiving,
    RuralSpecialDifficulty,
    AntiPovertyMonitoringRiskNotEliminated,
    AntiPovertyMonitoringRiskEliminated,
    OrphansAndFactuallyUnsupportedChildren,
    LowIncomePopulation,
}

/// The category tags in their canonical presentation order.
pub open spec fn all_tags() -> Seq<DifficultyType> {
    seq![
        DifficultyType::PovertyAlleviatedContinuePolicy,
        DifficultyType::PovertyAlleviatedNoPolicy,
        DifficultyType::DisabledWithCertificate,
        DifficultyType::RuralMinimumLiving,
        DifficultyType::UrbanMinimumLiving,
        DifficultyType::RuralSpecialDifficulty,
        DifficultyType::AntiPovertyMonitoringRiskNotEliminated,
        DifficultyType::AntiPovertyMonitoringRiskEliminated,
        DifficultyType::OrphansAndFactuallyUnsupportedChildren,
        DifficultyType::LowIncomePopulation,
    ]
}

/// A rule for locating the true header row dynamically: scan the first
/// `max_scan` rows; the first row holding both a name-like token and an
/// identifier-like token is the header, and data begins on the next row.
#[derive(Debug)]
pub struct HeaderRule {
    pub max_scan: usize,
    pub name_token: String,
    pub id_token: String,
}

#[verifier::ext_equal]
pub ghost struct HeaderRuleV {
    pub max_scan: usize,
    pub name_token: Seq<char>,
    pub id_token: Seq<char>,
}

impl View for HeaderRule {
    type V = HeaderRuleV;

    open spec fn view(&self) -> HeaderRuleV {
        HeaderRuleV { max_scan: self.max_scan, name_token: self.name_token@, id_token: self.id_token@ }
    }
}

impl Clone for HeaderRule {
    fn clone(&self) -> (r: Self)
        ensures
            r@ == self@,
    {
        HeaderRule {
            max_scan: self.max_scan,
            name_token: self.name_token.clone(),
            id_token: self.id_token.clone(),
        }
    }
}

/// The extraction parameters of one category source: the sheets holding its
/// data, the identifier columns scanned within each row, an optional name
/// column, the fixed number of leading rows to skip, and an optional dynamic
/// header-detection rule overriding the fixed skip count.
#[derive(Debug)]
pub struct CategorySchema {
    pub sheet_indices: Vec<usize>,
    pub id_columns: Vec<usize>,
    pub name_column: Option<usize>,
    pub skip_rows: usize,
    pub header_rule: Option<HeaderRule>,
}

#[verifier::ext_equal]
pub ghost struct CategorySchemaV {
    pub sheet_indices: Seq<usize>,
    pub id_columns: Seq<usize>,
    pub name_column: Option<usize>,
    pub skip_rows: usize,
    pub header_rule: Option<HeaderRuleV>,
}

impl View for CategorySchema {
    type V = CategorySchemaV;

    open spec fn view(&self) -> CategorySchemaV {
        CategorySchemaV {
            sheet_indices: self.sheet_indices@,
            id_columns: self.id_columns@,
            name_column: self.name_column,
            skip_rows: self.skip_rows,
            header_rule: match self.header_rule {
                Some(r) => Some(r@),
                None => None,
            },
        }
    }
}

/// The registry table: the schema bound to each category tag.
pub open spec fn schema_spec(tag: DifficultyType) -> CategorySchemaV {
    match tag {
        DifficultyType::PovertyAlleviatedContinuePolicy => CategorySchemaV {
            sheet_indices: seq![0usize],
            id_columns: seq![7usize],
            name_column: None,
            skip_rows: 1,
            header_rule: None,
        },
        DifficultyType::PovertyAlleviatedNoPolicy => CategorySchemaV {
            sheet_indices: seq![0usize],
            id_columns: seq![7usize],
            name_column: None,
            skip_rows: 1,
            header_rule: None,
        },
        DifficultyType::DisabledWithCertificate => CategorySchemaV {
            sheet_indices: seq![0usize],
            id_columns: seq![1usize],
            name_column: None,
            skip_rows: 1,
            header_rule: None,
        },
        DifficultyType::RuralMinimumLiving => CategorySchemaV {
            sheet_indices: seq![1usize],
            id_columns: seq![6usize, 15, 17, 19, 21, 23, 25, 27, 29],
            name_column: None,
            skip_rows: 2,
            header_rule: None,
        },
        DifficultyType::UrbanMinimumLiving => CategorySchemaV {
            sheet_indices: seq![1usize],
            id_columns: seq![6usize, 16, 18, 20, 22, 24],
            name_column: None,
            skip_rows: 2,
            header_rule: None,
        },
        DifficultyType::RuralSpecialDifficulty => CategorySchemaV {
            sheet_indices: seq![1usize],
            id_columns: seq![5usize, 26, 31, 33, 35, 37, 39, 41],
            name_column: None,
            skip_rows: 3,
            header_rule: None,
        },
        DifficultyType::AntiPovertyMonitoringRiskNotEliminated => CategorySchemaV {
            sheet_indices: seq![0usize],
            id_columns: seq![11usize],
            name_column: None,
            skip_rows: 1,
            header_rule: None,
        },
        DifficultyType::AntiPovertyMonitoringRiskEliminated => CategorySchemaV {
            sheet_indices: seq![0usize],
            id_columns: seq![11usize],
            name_column: None,
            skip_rows: 1,
            header_rule: None,
        },
        DifficultyType::OrphansAndFactuallyUnsupportedChildren => CategorySchemaV {
            sheet_indices: seq![0usize, 2],
            id_columns: seq![2usize],
            name_column: None,
            skip_rows: 3,
            header_rule: None,
        },
        DifficultyType::LowIncomePopulation => CategorySchemaV {
            sheet_indices: seq![0usize],
            id_columns: seq![3usize],
            name_column: None,
            skip_rows: 1,
            header_rule: None,
        },
    }
}

fn usize_vec(values: &[usize]) -> (r: Vec<usize>)
    ensures
        r@ == values@,
{
    let mut v: Vec<usize> = Vec::new();
    let mut i: usize = 0;
    while i < values.len()
        invariant
            i <= values@.len(),
            v@ == values@.take(i as int),
        decreases values@.len() - i,
    {
        v.push(values[i]);
        proof {
            assert(values@.take(i as int + 1) =~= values@.take(i as int).push(values@[i as int]));
        }
        i = i + 1;
    }
    proof {
        assert(values@.take(values@.len() as int) =~= values@);
    }
    v
}

/// Look up the schema bound to a category tag. Total: tags form a closed set.
pub fn schema_for(tag: DifficultyType) -> (r: CategorySchema)
    ensures
        r@ == schema_spec(tag),
{
    let (sheets, cols, skip): (Vec<usize>, Vec<usize>, usize) = match tag {
        DifficultyType::PovertyAlleviatedContinuePolicy => (usize_vec(&[0]), usize_vec(&[7]), 1),
        DifficultyType::PovertyAlleviatedNoPolicy => (usize_vec(&[0]), usize_vec(&[7]), 1),
        DifficultyType::DisabledWithCertificate => (usize_vec(&[0]), usize_vec(&[1]), 1),
        DifficultyType::RuralMinimumLiving => (
            usize_vec(&[1]),
            usize_vec(&[6, 15, 17, 19, 21, 23, 25, 27, 29]),
            2,
        ),
        DifficultyType::UrbanMinimumLiving => (
            usize_vec(&[1]),
            usize_vec(&[6, 16, 18, 20, 22, 24]),
            2,
        ),
        DifficultyType::RuralSpecialDifficulty => (
            usize_vec(&[1]),
            usize_vec(&[5, 26, 31, 33, 35, 37, 39, 41]),
            3,
        ),
        DifficultyType::AntiPovertyMonitoringRiskNotEliminated => (
            usize_vec(&[0]),
            usize_vec(&[11]),
            1,
        ),
        DifficultyType::AntiPovertyMonitoringRiskEliminated => (
            usize_vec(&[0]),
            usize_vec(&[11]),
            1,
        ),
        DifficultyType::OrphansAndFactuallyUnsupportedChildren => (
            usize_vec(&[0, 2]),
            usize_vec(&[2]),
            3,
        ),
        DifficultyType::LowIncomePopulation => (usize_vec(&[0]), usize_vec(&[3]), 1),
    };
    let r = CategorySchema {
        sheet_indices: sheets,
        id_columns: cols,
        name_column: None,
        skip_rows: skip,
        header_rule: None,
    };
    proof {
        assert(r@ =~~= schema_spec(tag));
    }
    r
}

impl DifficultyType {
    /// All category tags, in canonical order.
    pub fn all() -> (r: Vec<DifficultyType>)
        ensures
            r@ == all_tags(),
    {
        let mut v: Vec<DifficultyType> = Vec::new();
        v.push(DifficultyType::PovertyAlleviatedContinuePolicy);
        v.push(DifficultyType::PovertyAlleviatedNoPolicy);
        v.push(DifficultyType::DisabledWithCertificate);
        v.push(DifficultyType::RuralMinimumLiving);
        v.push(DifficultyType::UrbanMinimumLiving);
        v.push(DifficultyType::RuralSpecialDifficulty);
        v.push(DifficultyType::AntiPovertyMonitoringRiskNotEliminated);
        v.push(DifficultyType::AntiPovertyMonitoringRiskEliminated);
        v.push(DifficultyType::OrphansAndFactuallyUnsupportedChildren);
        v.push(DifficultyType::LowIncomePopulation);
        proof {
            assert(v@ =~= all_tags());
        }
        v
    }

    /// The summary configuration (identifier column, data start row) kept for
    /// callers of the coarse per-tag view of the registry.
    pub open spec fn column_config_spec(self) -> (usize, usize) {
        match self {
            DifficultyType::PovertyAlleviatedContinuePolicy => (7usize, 1usize),
            DifficultyType::PovertyAlleviatedNoPolicy => (7usize, 1usize),
            DifficultyType::DisabledWithCertificate => (1usize, 1usize),
            DifficultyType::RuralMinimumLiving => (6usize, 2usize),
            DifficultyType::UrbanMinimumLiving => (6usize, 1usize),
            DifficultyType::RuralSpecialDifficulty => (5usize, 3usize),
            DifficultyType::AntiPovertyMonitoringRiskNotEliminated => (11usize, 1usize),
            DifficultyType::AntiPovertyMonitoringRiskEliminated => (11usize, 1usize),
            DifficultyType::OrphansAndFactuallyUnsupportedChildren => (2usize, 1usize),
            DifficultyType::LowIncomePopulation => (3usize, 1usize),
        }
    }

    /// The (identifier column, data start row) pair bound to this tag.
    pub fn get_column_config(&self) -> (r: (usize, usize))
        ensures
            r == self.column_config_spec(),
    {
        match self {
            DifficultyType::PovertyAlleviatedContinuePolicy => (7, 1),
            DifficultyType::PovertyAlleviatedNoPolicy => (7, 1),
            DifficultyType::DisabledWithCertificate => (1, 1),
            DifficultyType::RuralMinimumLiving => (6, 2),
            DifficultyType::UrbanMinimumLiving => (6, 1),
            DifficultyType::RuralSpecialDifficulty => (5, 3),
            DifficultyType::AntiPovertyMonitoringRiskNotEliminated => (11, 1),
            DifficultyType::AntiPovertyMonitoringRiskEliminated => (11, 1),
            DifficultyType::OrphansAndFactuallyUnsupportedChildren => (2, 1),
            DifficultyType::LowIncomePopulation => (3, 1),
        }
    }

    /// The display label of this tag.
    pub open spec fn label_spec(self) -> Seq<char> {
        match self {
            DifficultyType::PovertyAlleviatedContinuePolicy => "脱贫户(继续享受政策)"@,
            DifficultyType::PovertyAlleviatedNoPolicy => "脱贫户(不享受政策)"@,
            DifficultyType::DisabledWithCertificate => "持证残疾人"@,
            DifficultyType::RuralMinimumLiving => "农村低保"@,
            DifficultyType::UrbanMinimumLiving => "城镇低保"@,
            DifficultyType::RuralSpecialDifficulty => "城乡特困"@,
            DifficultyType::AntiPovertyMonitoringRiskNotEliminated => "防返贫监测对象(风险未消除)"@,
            DifficultyType::AntiPovertyMonitoringRiskEliminated => "防返贫监测对象(风险已消除)"@,
            DifficultyType::OrphansAndFactuallyUnsupportedChildren => "孤儿及事实无人抚养儿童"@,
            DifficultyType::LowIncomePopulation => "低收入人口"@,
        }
    }

    /// The human-readable label of this tag.
    pub fn label(&self) -> (r: String)
        ensures
            r@ == self.label_spec(),
    {
        match self {
            DifficultyType::PovertyAlleviatedContinuePolicy => String::from_str("脱贫户(继续享受政策)"),
            DifficultyType::PovertyAlleviatedNoPolicy => String::from_str("脱贫户(不享受政策)"),
            DifficultyType::DisabledWithCertificate => String::from_str("持证残疾人"),
            DifficultyType::RuralMinimumLiving => String::from_str("农村低保"),
            DifficultyType::UrbanMinimumLiving => String::from_str("城镇低保"),
            DifficultyType::RuralSpecialDifficulty => String::from_str("城乡特困"),
            DifficultyType::AntiPovertyMonitoringRiskNotEliminated => String::from_str(
                "防返贫监测对象(风险未消除)",
            ),
            DifficultyType::AntiPovertyMonitoringRiskEliminated => String::from_str(
                "防返贫监测对象(风险已消除)",
            ),
            DifficultyType::OrphansAndFactuallyUnsupportedChildren => String::from_str(
                "孤儿及事实无人抚养儿童",
            ),
            DifficultyType::LowIncomePopulation => String::from_str("低收入人口"),
        }
    }
}

/// Which tag, if any, a display label names: the inverse of `label_spec`.
pub open spec fn from_label_spec(s: Seq<char>) -> Option<DifficultyType> {
    if s == DifficultyType::PovertyAlleviatedContinuePolicy.label_spec() {
        Some(DifficultyType::PovertyAlleviatedContinuePolicy)
    } else if s == DifficultyType::PovertyAlleviatedNoPolicy.label_spec() {
        Some(DifficultyType::PovertyAlleviatedNoPolicy)
    } else if s == DifficultyType::DisabledWithCertificate.label_spec() {
        Some(DifficultyType::DisabledWithCertificate)
    } else if s == DifficultyType::RuralMinimumLiving.label_spec() {
        Some(DifficultyType::RuralMinimumLiving)
    } else if s == DifficultyType::UrbanMinimumLiving.label_spec() {
        Some(DifficultyType::UrbanMinimumLiving)
    } else if s == DifficultyType::RuralSpecialDifficulty.label_spec() {
        Some(DifficultyType::RuralSpecialDifficulty)
    } else if s == DifficultyType::AntiPovertyMonitoringRiskNotEliminated.label_spec() {
        Some(DifficultyType::AntiPovertyMonitoringRiskNotEliminated)
    } else if s == DifficultyType::AntiPovertyMonitoringRiskEliminated.label_spec() {
        Some(DifficultyType::AntiPovertyMonitoringRiskEliminated)
    } else if s == DifficultyType::OrphansAndFactuallyUnsupportedChildren.label_spec() {
        Some(DifficultyType::OrphansAndFactuallyUnsupportedChildren)
    } else if s == DifficultyType::LowIncomePopulation.label_spec() {
        Some(DifficultyType::LowIncomePopulation)
    } else {
        None
    }
}

/// Parse a display label back to its category tag; `None` marks an
/// unrecognized tag, which callers treat as a configuration error.
pub fn difficulty_type_from_label(s: &str) -> (r: Option<DifficultyType>)
    ensures
        r == from_label_spec(s@),
{
    let key = String::from_str(s);
    if key == DifficultyType::PovertyAlleviatedContinuePolicy.label() {
        Some(DifficultyType::PovertyAlleviatedContinuePolicy)
    } else if key == DifficultyType::PovertyAlleviatedNoPolicy.label() {
        Some(DifficultyType::PovertyAlleviatedNoPolicy)
    } else if key == DifficultyType::DisabledWithCertificate.label() {
        Some(DifficultyType::DisabledWithCertificate)
    } else if key == DifficultyType::RuralMinimumLiving.label() {
        Some(DifficultyType::RuralMinimumLiving)
    } else if key == DifficultyType::UrbanMinimumLiving.label() {
        Some(DifficultyType::UrbanMinimumLiving)
    } else if key == DifficultyType::RuralSpecialDifficulty.label() {
        Some(DifficultyType::RuralSpecialDifficulty)
    } else if key == DifficultyType::AntiPovertyMonitoringRiskNotEliminated.label() {
        Some(DifficultyType::AntiPovertyMonitoringRiskNotEliminated)
    } else if key == DifficultyType::AntiPovertyMonitoringRiskEliminated.label() {
        Some(DifficultyType::AntiPovertyMonitoringRiskEliminated)
    } else if key == DifficultyType::OrphansAndFactuallyUnsupportedChildren.label() {
        Some(DifficultyType::OrphansAndFactuallyUnsupportedChildren)
    } else if key == DifficultyType::LowIncomePopulation.label() {
        Some(DifficultyType::LowIncomePopulation)
    } else {
        None
    }
}

} // verus!
