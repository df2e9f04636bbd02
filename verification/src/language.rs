use vstd::prelude::*;

verus! {

/// The closed set of natural languages that the ontology supports.
#[derive(Clone, Copy, Debug, PartialEq, Eq, Hash, Structural)]
pub enum Language {
    DE,
    EN,
    ES,
    FR,
    JA,
    KO,
}

impl Language {
    /// The fixed order in which the registry enumerates the languages.
    pub open spec fn spec_all() -> Seq<Language> {
        seq![
            Language::DE,
            Language::EN,
            Language::ES,
            Language::FR,
            Language::JA,
            Language::KO,
        ]
    }

    /// Every supported language, in the registry's fixed order.
    pub fn all() -> (r: Vec<Language>)
        ensures
            r@ == Self::spec_all(),
    {
        let r = vec![
            Language::DE,
            Language::EN,
            Language::ES,
            Language::FR,
            Language::JA,
            Language::KO,
        ];
        proof {
            assert(r@ =~= Self::spec_all());
        }
        r
    }
}

} // verus!
