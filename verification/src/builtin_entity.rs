use vstd::prelude::*;

use crate::errors::EncodingError;
use crate::errors::UnknownIdentifierError;
use crate::language::Language;
use crate::ontology::SlotValue;

verus! {

/// A half-open byte-offset span [start, end) into the source text.
#[derive(Clone, Copy, Debug, PartialEq, Eq, Structural)]
pub struct EntityRange {
    pub start: usize,
    pub end: usize,
}

impl EntityRange {
    /// A well-formed span does not end before it starts.
    pub open spec fn wf(self) -> bool {
        self.start <= self.end
    }
}

/// The closed set of builtin entity kinds, in the registry's fixed order.
#[derive(Clone, Copy, Debug, PartialEq, Eq, Hash, Structural)]
pub enum BuiltinEntityKind {
    AmountOfMoney,
    Duration,
    Number,
    Ordinal,
    Temperature,
    Time,
    Percentage,
}

/// A recognized occurrence of a builtin entity inside free text.
#[derive(Clone, Debug, PartialEq)]
pub struct BuiltinEntity {
    /// The matched substring of the source text.
    pub value: String,
    /// Where the match stands in the source text.
    pub range: EntityRange,
    /// The typed, normalized value of the match.
    pub entity: SlotValue,
    /// The kind of the match; always agrees with the variant of `entity`.
    pub entity_kind: BuiltinEntityKind,
}

/// The entity kind that a slot value's variant implies.
pub open spec fn spec_kind_of_value(v: SlotValue) -> BuiltinEntityKind {
    match v {
        SlotValue::Number(_) => BuiltinEntityKind::Number,
        SlotValue::Ordinal(_) => BuiltinEntityKind::Ordinal,
        SlotValue::Percentage(_) => BuiltinEntityKind::Percentage,
        SlotValue::AmountOfMoney(_) => BuiltinEntityKind::AmountOfMoney,
        SlotValue::Temperature(_) => BuiltinEntityKind::Temperature,
        SlotValue::Duration(_) => BuiltinEntityKind::Duration,
        SlotValue::InstantTime(_) => BuiltinEntityKind::Time,
        SlotValue::TimeInterval(_) => BuiltinEntityKind::Time,
    }
}

impl BuiltinEntity {
    /// A well-formed record: a sane span, a well-formed value, and a kind
    /// tag that agrees with the value's variant.
    pub open spec fn wf(self) -> bool {
        &&& self.range.wf()
        &&& self.entity.wf()
        &&& spec_kind_of_value(self.entity) == self.entity_kind
    }
}

impl BuiltinEntityKind {
    /// Every entity kind, in the registry's fixed order.
    pub open spec fn spec_all() -> Seq<BuiltinEntityKind> {
        seq![
            BuiltinEntityKind::AmountOfMoney,
            BuiltinEntityKind::Duration,
            BuiltinEntityKind::Number,
            BuiltinEntityKind::Ordinal,
            BuiltinEntityKind::Temperature,
            BuiltinEntityKind::Time,
            BuiltinEntityKind::Percentage,
        ]
    }

    /// Every entity kind, in the registry's fixed order.
    pub fn all() -> (r: Vec<BuiltinEntityKind>)
        ensures
            r@ == Self::spec_all(),
    {
        let r = vec![
            BuiltinEntityKind::AmountOfMoney,
            BuiltinEntityKind::Duration,
            BuiltinEntityKind::Number,
            BuiltinEntityKind::Ordinal,
            BuiltinEntityKind::Temperature,
            BuiltinEntityKind::Time,
            BuiltinEntityKind::Percentage,
        ];
        proof {
            assert(r@ =~= Self::spec_all());
        }
        r
    }

    /// The stable wire identifier of each kind.
    pub open spec fn spec_identifier(self) -> Seq<char> {
        match self {
            BuiltinEntityKind::AmountOfMoney => "snips/amountOfMoney"@,
            BuiltinEntityKind::Duration => "snips/duration"@,
            BuiltinEntityKind::Number => "snips/number"@,
            BuiltinEntityKind::Ordinal => "snips/ordinal"@,
            BuiltinEntityKind::Temperature => "snips/temperature"@,
            BuiltinEntityKind::Time => "snips/datetime"@,
            BuiltinEntityKind::Percentage => "snips/percentage"@,
        }
    }

    /// The stable wire identifier of this kind.
    pub fn identifier(&self) -> (r: &'static str)
        ensures
            r@ == self.spec_identifier(),
    {
        match *self {
            BuiltinEntityKind::AmountOfMoney => "snips/amountOfMoney",
            BuiltinEntityKind::Duration => "snips/duration",
            BuiltinEntityKind::Number => "snips/number",
            BuiltinEntityKind::Ordinal => "snips/ordinal",
            BuiltinEntityKind::Temperature => "snips/temperature",
            BuiltinEntityKind::Time => "snips/datetime",
            BuiltinEntityKind::Percentage => "snips/percentage",
        }
    }

    /// The kind that an identifier string names: the first kind of the
    /// registry whose identifier equals the string, if any.
    pub open spec fn spec_from_identifier(s: Seq<char>) -> Option<BuiltinEntityKind> {
        if s == BuiltinEntityKind::AmountOfMoney.spec_identifier() {
            Some(BuiltinEntityKind::AmountOfMoney)
        } else if s == BuiltinEntityKind::Duration.spec_identifier() {
            Some(BuiltinEntityKind::Duration)
        } else if s == BuiltinEntityKind::Number.spec_identifier() {
            Some(BuiltinEntityKind::Number)
        } else if s == BuiltinEntityKind::Ordinal.spec_identifier() {
            Some(BuiltinEntityKind::Ordinal)
        } else if s == BuiltinEntityKind::Temperature.spec_identifier() {
            Some(BuiltinEntityKind::Temperature)
        } else if s == BuiltinEntityKind::Time.spec_identifier() {
            Some(BuiltinEntityKind::Time)
        } else if s == BuiltinEntityKind::Percentage.spec_identifier() {
            Some(BuiltinEntityKind::Percentage)
        } else {
            None
        }
    }

    /// Looks an identifier up by a linear scan over the registry.
    pub fn from_identifier(identifier: &str) -> (r: Result<BuiltinEntityKind, UnknownIdentifierError>)
        ensures
            match r {
                Ok(k) => Self::spec_from_identifier(identifier@) == Some(k),
                Err(e) => {
                    &&& Self::spec_from_identifier(identifier@) is None
                    &&& e.identifier@ == identifier@
                },
            },
    {
        let target: String = identifier.to_owned();
        let kinds = Self::all();
        let n = kinds.len();
        let mut i: usize = 0;
        while i < n
            invariant
                n == kinds.len(),
                kinds@ == Self::spec_all(),
                target@ == identifier@,
                i <= n,
                forall|j: int| 0 <= j < i ==> Self::spec_all()[j].spec_identifier() != identifier@,
            decreases n - i,
        {
            let k = kinds[i];
            if target == k.identifier().to_owned() {
                return Ok(k);
            }
            i += 1;
        }
        Err(UnknownIdentifierError { identifier: target })
    }

    /// The human-readable description of each kind.
    pub open spec fn spec_description(self) -> Seq<char> {
        match self {
            BuiltinEntityKind::AmountOfMoney => "Matches amount of money"@,
            BuiltinEntityKind::Duration => "Matches time duration"@,
            BuiltinEntityKind::Number => "Matches a cardinal numbers"@,
            BuiltinEntityKind::Ordinal => "Matches a ordinal numbers"@,
            BuiltinEntityKind::Temperature => "Matches a temperature"@,
            BuiltinEntityKind::Time => "Matches date, time, intervals or date and time together"@,
            BuiltinEntityKind::Percentage => "Matches a percentage"@,
        }
    }

    /// The human-readable description of this kind.
    pub fn description(&self) -> (r: &'static str)
        ensures
            r@ == self.spec_description(),
    {
        match *self {
            BuiltinEntityKind::AmountOfMoney => "Matches amount of money",
            BuiltinEntityKind::Duration => "Matches time duration",
            BuiltinEntityKind::Number => "Matches a cardinal numbers",
            BuiltinEntityKind::Ordinal => "Matches a ordinal numbers",
            BuiltinEntityKind::Temperature => "Matches a temperature",
            BuiltinEntityKind::Time => "Matches date, time, intervals or date and time together",
            BuiltinEntityKind::Percentage => "Matches a percentage",
        }
    }
}

impl BuiltinEntityKind {
    /// The German examples of each kind.
    pub open spec fn spec_de_examples(self) -> Seq<Seq<char>> {
        match self {
            BuiltinEntityKind::AmountOfMoney => seq!["10$"@, "ungefähr 5€"@, "zwei tausend Dollar"@],
            BuiltinEntityKind::Duration => seq!["2stdn"@, "drei monate"@, "ein halbe Stunde"@, "8 Jahre und zwei Tage"@],
            BuiltinEntityKind::Number => seq!["2001"@, "einundzwanzig"@, "zwei tausend"@, "zwei tausend und drei"@],
            BuiltinEntityKind::Ordinal => seq!["Erste"@, "der zweite"@, "zwei und zwanzigster"@],
            BuiltinEntityKind::Temperature => seq!["70K"@, "3°C"@, "Dreiundzwanzig Grad"@, "zweiunddreißig Grad Fahrenheit"@],
            BuiltinEntityKind::Time => seq!["Heute"@, "16.30 Uhr"@, "in 1 Stunde"@, "dritter Dienstag im Juni"@],
            BuiltinEntityKind::Percentage => seq!["25%"@, "zwanzig Prozent"@, "zwei tausend und fünfzig Prozent"@],
        }
    }

    /// The English examples of each kind.
    pub open spec fn spec_en_examples(self) -> Seq<Seq<char>> {
        match self {
            BuiltinEntityKind::AmountOfMoney => seq!["10$"@, "around 5€"@, "ten dollars and five cents"@],
            BuiltinEntityKind::Duration => seq!["1h"@, "3 months"@, "half an hour"@, "8 years and two days"@],
            BuiltinEntityKind::Number => seq!["2001"@, "twenty one"@, "three hundred and four"@],
            BuiltinEntityKind::Ordinal => seq!["1st"@, "the second"@, "the twenty third"@],
            BuiltinEntityKind::Temperature => seq!["70K"@, "3°C"@, "Twenty three degrees"@, "one hundred degrees fahrenheit"@],
            BuiltinEntityKind::Time => seq!["Today"@, "4:30 pm"@, "in 1 hour"@, "3rd tuesday of June"@],
            BuiltinEntityKind::Percentage => seq!["25%"@, "twenty percent"@, "two hundred and fifty percents"@],
        }
    }

    /// The Spanish examples of each kind.
    pub open spec fn spec_es_examples(self) -> Seq<Seq<char>> {
        match self {
            BuiltinEntityKind::AmountOfMoney => seq!["10$"@, "cinco euros"@, "diez dólares y cinco centavos"@],
            BuiltinEntityKind::Duration => seq!["1h"@, "3 meses"@],
            BuiltinEntityKind::Number => seq!["2001"@, "diez y ocho"@],
            BuiltinEntityKind::Ordinal => seq!["primer"@],
            BuiltinEntityKind::Temperature => seq!["70K"@, "3°C"@, "veintitrés grados"@],
            BuiltinEntityKind::Time => seq!["hoy"@, "esta noche"@, "a la 1:30"@, "el primer jueves de junio"@],
            BuiltinEntityKind::Percentage => seq!["25%"@, "quince porcientos"@, "20 por ciento"@],
        }
    }

    /// The French examples of each kind.
    pub open spec fn spec_fr_examples(self) -> Seq<Seq<char>> {
        match self {
            BuiltinEntityKind::AmountOfMoney => seq!["10$"@, "environ 5€"@, "dix dollars et cinq centimes"@],
            BuiltinEntityKind::Duration => seq!["1h"@, "3 mois"@, "une demi heure"@, "8 ans et deux jours"@],
            BuiltinEntityKind::Number => seq!["2001"@, "vingt deux"@, "deux cent trois"@, "quatre vingt dix neuf"@],
            BuiltinEntityKind::Ordinal => seq!["1er"@, "le deuxième"@, "vingt et unieme"@],
            BuiltinEntityKind::Temperature => seq!["70K"@, "3°C"@, "vingt trois degrés"@, "deux cent degrés Fahrenheit"@],
            BuiltinEntityKind::Time => seq!["Aujourd'hui"@, "à 14:30"@, "dans 1 heure"@, "le premier jeudi de Juin"@],
            BuiltinEntityKind::Percentage => seq!["25%"@, "20 pourcents"@, "quatre vingt dix pourcents"@],
        }
    }

    /// The Japanese examples of each kind.
    pub open spec fn spec_ja_examples(self) -> Seq<Seq<char>> {
        match self {
            BuiltinEntityKind::AmountOfMoney => Seq::empty(),
            BuiltinEntityKind::Duration => Seq::empty(),
            BuiltinEntityKind::Number => seq!["十二"@, "二千五"@, "四千三百二"@],
            BuiltinEntityKind::Ordinal => Seq::empty(),
            BuiltinEntityKind::Temperature => Seq::empty(),
            BuiltinEntityKind::Time => Seq::empty(),
            BuiltinEntityKind::Percentage => Seq::empty(),
        }
    }

    /// The Korean examples of each kind.
    pub open spec fn spec_ko_examples(self) -> Seq<Seq<char>> {
        match self {
            BuiltinEntityKind::AmountOfMoney => seq!["10$"@, "약 5 유로"@, "10 달러 5 센트"@],
            BuiltinEntityKind::Duration => seq!["양일"@, "1시간"@, "3 개월"@],
            BuiltinEntityKind::Number => seq!["2001"@, "삼천"@, "스물 둘"@, "천 아흔 아홉"@],
            BuiltinEntityKind::Ordinal => seq!["첫"@, "첫번째"@],
            BuiltinEntityKind::Temperature => seq!["5도"@, "섭씨 20도"@, "화씨 백 도"@],
            BuiltinEntityKind::Time => seq!["오늘"@, "14시 30 분에"@, "5 월 첫째 목요일"@],
            BuiltinEntityKind::Percentage => Seq::empty(),
        }
    }

    /// The examples of each kind in each language.
    pub open spec fn spec_examples(self, language: Language) -> Seq<Seq<char>> {
        match language {
            Language::DE => self.spec_de_examples(),
            Language::EN => self.spec_en_examples(),
            Language::ES => self.spec_es_examples(),
            Language::FR => self.spec_fr_examples(),
            Language::JA => self.spec_ja_examples(),
            Language::KO => self.spec_ko_examples(),
        }
    }

    /// How many illustrative examples each kind has in each language.
    pub open spec fn spec_examples_count(self, language: Language) -> nat {
        self.spec_examples(language).len()
    }

    /// Illustrative inputs that this kind recognizes in the given language;
    /// empty where the language has none for the kind.
    pub fn examples(&self, language: Language) -> (r: Vec<&'static str>)
        ensures
            r.deep_view() == self.spec_examples(language),
            r@.len() == self.spec_examples_count(language),
    {
        match language {
            Language::DE => self.de_examples(),
            Language::EN => self.en_examples(),
            Language::ES => self.es_examples(),
            Language::FR => self.fr_examples(),
            Language::JA => self.ja_examples(),
            Language::KO => self.ko_examples(),
        }
    }

    fn de_examples(&self) -> (r: Vec<&'static str>)
        ensures
            r.deep_view() == self.spec_de_examples(),
    {
        let r: Vec<&'static str> = match *self {
            BuiltinEntityKind::AmountOfMoney => vec!["10$", "ungefähr 5€", "zwei tausend Dollar"],
            BuiltinEntityKind::Duration => vec![
                "2stdn",
                "drei monate",
                "ein halbe Stunde",
                "8 Jahre und zwei Tage",
            ],
            BuiltinEntityKind::Number => vec![
                "2001",
                "einundzwanzig",
                "zwei tausend",
                "zwei tausend und drei",
            ],
            BuiltinEntityKind::Ordinal => vec!["Erste", "der zweite", "zwei und zwanzigster"],
            BuiltinEntityKind::Temperature => vec![
                "70K",
                "3°C",
                "Dreiundzwanzig Grad",
                "zweiunddreißig Grad Fahrenheit",
            ],
            BuiltinEntityKind::Time => vec![
                "Heute",
                "16.30 Uhr",
                "in 1 Stunde",
                "dritter Dienstag im Juni",
            ],
            BuiltinEntityKind::Percentage => vec![
                "25%",
                "zwanzig Prozent",
                "zwei tausend und fünfzig Prozent",
            ],
        };
        proof {
            assert(r.deep_view() =~= self.spec_de_examples());
        }
        r
    }

    fn en_examples(&self) -> (r: Vec<&'static str>)
        ensures
            r.deep_view() == self.spec_en_examples(),
    {
        let r: Vec<&'static str> = match *self {
            BuiltinEntityKind::AmountOfMoney => vec!["10$", "around 5€", "ten dollars and five cents"],
            BuiltinEntityKind::Duration => vec!["1h", "3 months", "half an hour", "8 years and two days"],
            BuiltinEntityKind::Number => vec!["2001", "twenty one", "three hundred and four"],
            BuiltinEntityKind::Ordinal => vec!["1st", "the second", "the twenty third"],
            BuiltinEntityKind::Temperature => vec![
                "70K",
                "3°C",
                "Twenty three degrees",
                "one hundred degrees fahrenheit",
            ],
            BuiltinEntityKind::Time => vec!["Today", "4:30 pm", "in 1 hour", "3rd tuesday of June"],
            BuiltinEntityKind::Percentage => vec!["25%", "twenty percent", "two hundred and fifty percents"],
        };
        proof {
            assert(r.deep_view() =~= self.spec_en_examples());
        }
        r
    }

    fn es_examples(&self) -> (r: Vec<&'static str>)
        ensures
            r.deep_view() == self.spec_es_examples(),
    {
        let r: Vec<&'static str> = match *self {
            BuiltinEntityKind::AmountOfMoney => vec!["10$", "cinco euros", "diez dólares y cinco centavos"],
            BuiltinEntityKind::Duration => vec!["1h", "3 meses"],
            BuiltinEntityKind::Number => vec!["2001", "diez y ocho"],
            BuiltinEntityKind::Ordinal => vec!["primer"],
            BuiltinEntityKind::Temperature => vec!["70K", "3°C", "veintitrés grados"],
            BuiltinEntityKind::Time => vec![
                "hoy",
                "esta noche",
                "a la 1:30",
                "el primer jueves de junio",
            ],
            BuiltinEntityKind::Percentage => vec!["25%", "quince porcientos", "20 por ciento"],
        };
        proof {
            assert(r.deep_view() =~= self.spec_es_examples());
        }
        r
    }

    fn fr_examples(&self) -> (r: Vec<&'static str>)
        ensures
            r.deep_view() == self.spec_fr_examples(),
    {
        let r: Vec<&'static str> = match *self {
            BuiltinEntityKind::AmountOfMoney => vec!["10$", "environ 5€", "dix dollars et cinq centimes"],
            BuiltinEntityKind::Duration => vec!["1h", "3 mois", "une demi heure", "8 ans et deux jours"],
            BuiltinEntityKind::Number => vec![
                "2001",
                "vingt deux",
                "deux cent trois",
                "quatre vingt dix neuf",
            ],
            BuiltinEntityKind::Ordinal => vec!["1er", "le deuxième", "vingt et unieme"],
            BuiltinEntityKind::Temperature => vec![
                "70K",
                "3°C",
                "vingt trois degrés",
                "deux cent degrés Fahrenheit",
            ],
            BuiltinEntityKind::Time => vec![
                "Aujourd'hui",
                "à 14:30",
                "dans 1 heure",
                "le premier jeudi de Juin",
            ],
            BuiltinEntityKind::Percentage => vec!["25%", "20 pourcents", "quatre vingt dix pourcents"],
        };
        proof {
            assert(r.deep_view() =~= self.spec_fr_examples());
        }
        r
    }

    fn ja_examples(&self) -> (r: Vec<&'static str>)
        ensures
            r.deep_view() == self.spec_ja_examples(),
    {
        let r: Vec<&'static str> = match *self {
            BuiltinEntityKind::AmountOfMoney => Vec::new(),
            BuiltinEntityKind::Duration => Vec::new(),
            BuiltinEntityKind::Number => vec!["十二", "二千五", "四千三百二"],
            BuiltinEntityKind::Ordinal => Vec::new(),
            BuiltinEntityKind::Temperature => Vec::new(),
            BuiltinEntityKind::Time => Vec::new(),
            BuiltinEntityKind::Percentage => Vec::new(),
        };
        proof {
            assert(r.deep_view() =~= self.spec_ja_examples());
        }
        r
    }

    fn ko_examples(&self) -> (r: Vec<&'static str>)
        ensures
            r.deep_view() == self.spec_ko_examples(),
    {
        let r: Vec<&'static str> = match *self {
            BuiltinEntityKind::AmountOfMoney => vec!["10$", "약 5 유로", "10 달러 5 센트"],
            BuiltinEntityKind::Duration => vec!["양일", "1시간", "3 개월"],
            BuiltinEntityKind::Number => vec!["2001", "삼천", "스물 둘", "천 아흔 아홉"],
            BuiltinEntityKind::Ordinal => vec!["첫", "첫번째"],
            BuiltinEntityKind::Temperature => vec!["5도", "섭씨 20도", "화씨 백 도"],
            BuiltinEntityKind::Time => vec!["오늘", "14시 30 분에", "5 월 첫째 목요일"],
            BuiltinEntityKind::Percentage => Vec::new(),
        };
        proof {
            assert(r.deep_view() =~= self.spec_ko_examples());
        }
        r
    }
}

/// Whether a kind supports a language: every kind supports every language,
/// except Percentage, which does not support Korean.
pub open spec fn spec_supports(k: BuiltinEntityKind, l: Language) -> bool {
    !(k == BuiltinEntityKind::Percentage && l == Language::KO)
}

impl BuiltinEntityKind {
    /// The languages this kind supports, in the registry's fixed order.
    pub open spec fn spec_supported_languages(self) -> Seq<Language> {
        if self == BuiltinEntityKind::Percentage {
            seq![Language::DE, Language::EN, Language::ES, Language::FR, Language::JA]
        } else {
            Language::spec_all()
        }
    }

    /// The languages this kind supports, in the registry's fixed order.
    ///
    /// Every kind supports all six languages, except Percentage, which
    /// supports all but Korean.
    pub fn supported_languages(&self) -> (r: Vec<Language>)
        ensures
            r@ == self.spec_supported_languages(),
            forall|l: Language| r@.contains(l) <==> spec_supports(*self, l),
    {
        let r = match *self {
            BuiltinEntityKind::Percentage => {
                vec![Language::DE, Language::EN, Language::ES, Language::FR, Language::JA]
            },
            _ => Language::all(),
        };
        proof {
            assert(r@ =~= self.spec_supported_languages());
            assert forall|l: Language| spec_supports(*self, l) implies r@.contains(l) by {
                match l {
                    Language::DE => { assert(r@[0] == Language::DE); },
                    Language::EN => { assert(r@[1] == Language::EN); },
                    Language::ES => { assert(r@[2] == Language::ES); },
                    Language::FR => { assert(r@[3] == Language::FR); },
                    Language::JA => { assert(r@[4] == Language::JA); },
                    Language::KO => { assert(r@[5] == Language::KO); },
                }
            }
        }
        r
    }
}

/// The registry enumerates every kind.
pub proof fn lemma_all_kinds_complete(k: BuiltinEntityKind)
    ensures
        BuiltinEntityKind::spec_all().contains(k),
{
    match k {
        BuiltinEntityKind::AmountOfMoney => {
            assert(BuiltinEntityKind::spec_all()[0] == k);
        },
        BuiltinEntityKind::Duration => {
            assert(BuiltinEntityKind::spec_all()[1] == k);
        },
        BuiltinEntityKind::Number => {
            assert(BuiltinEntityKind::spec_all()[2] == k);
        },
        BuiltinEntityKind::Ordinal => {
            assert(BuiltinEntityKind::spec_all()[3] == k);
        },
        BuiltinEntityKind::Temperature => {
            assert(BuiltinEntityKind::spec_all()[4] == k);
        },
        BuiltinEntityKind::Time => {
            assert(BuiltinEntityKind::spec_all()[5] == k);
        },
        BuiltinEntityKind::Percentage => {
            assert(BuiltinEntityKind::spec_all()[6] == k);
        },
    }
}

/// No two kinds share an identifier.
pub proof fn lemma_identifier_injective(a: BuiltinEntityKind, b: BuiltinEntityKind)
    ensures
        a.spec_identifier() == b.spec_identifier() ==> a == b,
{
    reveal_strlit("snips/amountOfMoney");
    reveal_strlit("snips/duration");
    reveal_strlit("snips/number");
    reveal_strlit("snips/ordinal");
    reveal_strlit("snips/temperature");
    reveal_strlit("snips/datetime");
    reveal_strlit("snips/percentage");
    assert(("snips/amountOfMoney")@.len() == 19);
    assert(("snips/duration")@.len() == 14);
    assert(("snips/number")@.len() == 12);
    assert(("snips/ordinal")@.len() == 13);
    assert(("snips/temperature")@.len() == 17);
    assert(("snips/datetime")@.len() == 14);
    assert(("snips/percentage")@.len() == 16);
    assert(("snips/duration")@[7] != ("snips/datetime")@[7]);
}

/// Identifiers round-trip: looking a kind's own identifier up finds
/// exactly that kind.
pub proof fn lemma_identifier_round_trip(k: BuiltinEntityKind)
    ensures
        BuiltinEntityKind::spec_from_identifier(k.spec_identifier()) == Some(k),
{
    lemma_identifier_injective(k, BuiltinEntityKind::AmountOfMoney);
    lemma_identifier_injective(k, BuiltinEntityKind::Duration);
    lemma_identifier_injective(k, BuiltinEntityKind::Number);
    lemma_identifier_injective(k, BuiltinEntityKind::Ordinal);
    lemma_identifier_injective(k, BuiltinEntityKind::Temperature);
    lemma_identifier_injective(k, BuiltinEntityKind::Time);
    lemma_identifier_injective(k, BuiltinEntityKind::Percentage);
}

/// A string that equals no kind's identifier names no kind.
pub proof fn lemma_from_identifier_unknown(s: Seq<char>)
    requires
        forall|k: BuiltinEntityKind| k.spec_identifier() != s,
    ensures
        BuiltinEntityKind::spec_from_identifier(s) is None,
{
    assert(BuiltinEntityKind::AmountOfMoney.spec_identifier() != s);
    assert(BuiltinEntityKind::Duration.spec_identifier() != s);
    assert(BuiltinEntityKind::Number.spec_identifier() != s);
    assert(BuiltinEntityKind::Ordinal.spec_identifier() != s);
    assert(BuiltinEntityKind::Temperature.spec_identifier() != s);
    assert(BuiltinEntityKind::Time.spec_identifier() != s);
    assert(BuiltinEntityKind::Percentage.spec_identifier() != s);
}

/// Percentage supports every language but Korean; every other kind
/// supports all six languages.
pub proof fn lemma_language_support(k: BuiltinEntityKind, l: Language)
    ensures
        spec_supports(k, l) <==> !(k == BuiltinEntityKind::Percentage && l == Language::KO),
{
}

/// For every language a kind supports, the kind has examples, except in
/// Japanese, where only Number has any.
pub proof fn lemma_examples_for_supported_languages(k: BuiltinEntityKind, l: Language)
    requires
        spec_supports(k, l),
    ensures
        (k.spec_examples_count(l) > 0) <==> !(l == Language::JA && k
            != BuiltinEntityKind::Number),
{
}

impl BuiltinEntityKind {
    /// The canonical example payload of each kind: one or more example
    /// slot values of the kind, in the pretty-printed wire format.
    pub open spec fn spec_result_description(self) -> Seq<char> {
        match self {
            BuiltinEntityKind::AmountOfMoney => "[\n  {\n    \"kind\": \"AmountOfMoney\",\n    \"value\": 10.05,\n    \"precision\": \"Approximate\",\n    \"unit\": \"€\"\n  }\n]"@,
            BuiltinEntityKind::Duration => "[\n  {\n    \"kind\": \"Duration\",\n    \"years\": 0,\n    \"quarters\": 0,\n    \"months\": 3,\n    \"weeks\": 0,\n    \"days\": 0,\n    \"hours\": 0,\n    \"minutes\": 0,\n    \"seconds\": 0,\n    \"precision\": \"Exact\"\n  }\n]"@,
            BuiltinEntityKind::Number => "[\n  {\n    \"kind\": \"Number\",\n    \"value\": 42.0\n  }\n]"@,
            BuiltinEntityKind::Ordinal => "[\n  {\n    \"kind\": \"Ordinal\",\n    \"value\": 2\n  }\n]"@,
            BuiltinEntityKind::Temperature => "[\n  {\n    \"kind\": \"Temperature\",\n    \"value\": 23.0,\n    \"unit\": \"celsius\"\n  },\n  {\n    \"kind\": \"Temperature\",\n    \"value\": 60.0,\n    \"unit\": \"fahrenheit\"\n  }\n]"@,
            BuiltinEntityKind::Time => "[\n  {\n    \"kind\": \"InstantTime\",\n    \"value\": \"2017-06-13 18:00:00 +02:00\",\n    \"grain\": \"Hour\",\n    \"precision\": \"Exact\"\n  },\n  {\n    \"kind\": \"TimeInterval\",\n    \"from\": \"2017-06-07 18:00:00 +02:00\",\n    \"to\": \"2017-06-08 00:00:00 +02:00\"\n  }\n]"@,
            BuiltinEntityKind::Percentage => "[\n  {\n    \"kind\": \"Percentage\",\n    \"value\": 20.0\n  }\n]"@,
        }
    }

    /// The canonical example payload of this kind, pretty-printed in the
    /// wire format.
    ///
    /// The payloads are fixed well-formed data, so encoding never fails
    /// and the result is always `Ok`.
    pub fn result_description(&self) -> (r: Result<String, EncodingError>)
        ensures
            r is Ok,
            r->Ok_0@ == self.spec_result_description(),
    {
        let s: &'static str = match *self {
            BuiltinEntityKind::AmountOfMoney => "[\n  {\n    \"kind\": \"AmountOfMoney\",\n    \"value\": 10.05,\n    \"precision\": \"Approximate\",\n    \"unit\": \"€\"\n  }\n]",
            BuiltinEntityKind::Duration => "[\n  {\n    \"kind\": \"Duration\",\n    \"years\": 0,\n    \"quarters\": 0,\n    \"months\": 3,\n    \"weeks\": 0,\n    \"days\": 0,\n    \"hours\": 0,\n    \"minutes\": 0,\n    \"seconds\": 0,\n    \"precision\": \"Exact\"\n  }\n]",
            BuiltinEntityKind::Number => "[\n  {\n    \"kind\": \"Number\",\n    \"value\": 42.0\n  }\n]",
            BuiltinEntityKind::Ordinal => "[\n  {\n    \"kind\": \"Ordinal\",\n    \"value\": 2\n  }\n]",
            BuiltinEntityKind::Temperature => "[\n  {\n    \"kind\": \"Temperature\",\n    \"value\": 23.0,\n    \"unit\": \"celsius\"\n  },\n  {\n    \"kind\": \"Temperature\",\n    \"value\": 60.0,\n    \"unit\": \"fahrenheit\"\n  }\n]",
            BuiltinEntityKind::Time => "[\n  {\n    \"kind\": \"InstantTime\",\n    \"value\": \"2017-06-13 18:00:00 +02:00\",\n    \"grain\": \"Hour\",\n    \"precision\": \"Exact\"\n  },\n  {\n    \"kind\": \"TimeInterval\",\n    \"from\": \"2017-06-07 18:00:00 +02:00\",\n    \"to\": \"2017-06-08 00:00:00 +02:00\"\n  }\n]",
            BuiltinEntityKind::Percentage => "[\n  {\n    \"kind\": \"Percentage\",\n    \"value\": 20.0\n  }\n]",
        };
        Ok(s.to_owned())
    }
}

} // verus!
