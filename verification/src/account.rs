//! Account classification and the known bank identifier schemes, each with
//! its text form.

use crate::text::same_text;
use std::convert::TryFrom;
use std::str::FromStr;
use vstd::prelude::*;
use vstd::std_specs::convert::FromSpecImpl;
use vstd::std_specs::convert::TryFromSpecImpl;
use vstd::string::StringExecFns;

pub mod account_builder;

verus! {

/// Whether an account is held by an individual or by an entity.
#[derive(Debug, PartialEq, Eq, Structural, Copy, Clone)]
pub enum Classification {
    PERSONAL,
    BUSINESS,
}

/// The message for a text that names no classification.
pub open spec fn unknown_classification_text(input: Seq<char>) -> Seq<char> {
    input + " is not classification variant"@
}

impl Classification {
    /// The text that stands for a classification.
    pub open spec fn text(self) -> Seq<char> {
        match self {
            Classification::PERSONAL => "Personal"@,
            Classification::BUSINESS => "Business"@,
        }
    }

    /// The two classifications have different texts.
    pub proof fn lemma_text_tells_classifications_apart(a: Classification, b: Classification)
        requires
            a.text() == b.text(),
        ensures
            a == b,
    {
        reveal_strlit("Personal");
        reveal_strlit("Business");
        assert("Personal"@[0] != "Business"@[0]);
    }
}

impl From<Classification> for &str {
    fn from(c: Classification) -> (text: Self)
        ensures
            text@ == c.text(),
    {
        match c {
            Classification::PERSONAL => "Personal",
            Classification::BUSINESS => "Business",
        }
    }
}

impl FromSpecImpl<Classification> for &str {
    open spec fn obeys_from_spec() -> bool {
        true
    }

    open spec fn from_spec(c: Classification) -> Self {
        match c {
            Classification::PERSONAL => "Personal",
            Classification::BUSINESS => "Business",
        }
    }
}

impl FromStr for Classification {
    type Err = String;

    /// Reads a classification from its text: the classification whose text
    /// the input is, or the message that names the input.
    fn from_str(input: &str) -> (parsed: Result<Self, Self::Err>)
        ensures
            parsed matches Ok(classification) ==> classification.text() == input@,
            parsed matches Err(message) ==> message@ == unknown_classification_text(input@),
            parsed is Err <==> forall|c: Classification| c.text() != input@,
    {
        let parsed = if same_text(input, "Personal") {
            Ok(Classification::PERSONAL)
        } else if same_text(input, "Business") {
            Ok(Classification::BUSINESS)
        } else {
            let mut message = input.to_owned();
            message.append(" is not classification variant");
            Err(message)
        };
        assert(parsed matches Ok(classification) ==> classification.text() == input@);
        parsed
    }
}

impl TryFromSpecImpl<&str> for Classification {
    /// The error of this conversion is a `String`, which a contract can
    /// describe by its characters only. What the conversion gives is
    /// therefore stated on `try_from` itself, and not through `try_from_spec`.
    open spec fn obeys_try_from_spec() -> bool {
        false
    }

    open spec fn try_from_spec(input: &str) -> Result<Self, String> {
        arbitrary()
    }
}

impl TryFrom<&str> for Classification {
    type Error = String;

    fn try_from(input: &str) -> (parsed: Result<Self, Self::Error>)
        ensures
            parsed matches Ok(classification) ==> classification.text() == input@,
            parsed matches Err(message) ==> message@ == unknown_classification_text(input@),
            parsed is Err <==> forall|c: Classification| c.text() != input@,
    {
        Classification::from_str(input)
    }
}

/// The national schemes of bank identifiers that are known.
#[derive(Debug, PartialEq, Eq, Structural, Copy, Clone)]
pub enum KnownBankIdCode {
    GbBankIdCode,
    AuBankIdCode,
    BeBankIdCode,
    CaBankIdCode,
    FrBankIdCode,
    DeBankIdCode,
    GrBankIdCode,
    HkBankIdCode,
    ItBankIdCode,
    LuBankIdCode,
    PlBankIdCode,
    PtBankIdCode,
    EsBankIdCode,
    ChBankIdCode,
    UsBankIdCode,
}

/// The message for a text that names no known scheme.
pub open spec fn unknown_bank_id_code_text(input: Seq<char>) -> Seq<char> {
    input + " is not known bank id variant"@
}

impl KnownBankIdCode {
    /// The code that names a scheme.
    pub open spec fn text(self) -> Seq<char> {
        match self {
            KnownBankIdCode::GbBankIdCode => "GBDSC"@,
            KnownBankIdCode::AuBankIdCode => "AUBSB"@,
            KnownBankIdCode::BeBankIdCode => "BE"@,
            KnownBankIdCode::CaBankIdCode => "CACPA"@,
            KnownBankIdCode::FrBankIdCode => "FR"@,
            KnownBankIdCode::DeBankIdCode => "DEBLZ"@,
            KnownBankIdCode::GrBankIdCode => "GRBIC"@,
            KnownBankIdCode::HkBankIdCode => "HKNCC"@,
            KnownBankIdCode::ItBankIdCode => "ITNCC"@,
            KnownBankIdCode::LuBankIdCode => "LULUX"@,
            KnownBankIdCode::PlBankIdCode => "PLKNR"@,
            KnownBankIdCode::PtBankIdCode => "PTNCC"@,
            KnownBankIdCode::EsBankIdCode => "ESNCC"@,
            KnownBankIdCode::ChBankIdCode => "CHBCC"@,
            KnownBankIdCode::UsBankIdCode => "USABA"@,
        }
    }

    /// No two schemes share a code.
    pub proof fn lemma_text_tells_schemes_apart(a: KnownBankIdCode, b: KnownBankIdCode)
        requires
            a.text() == b.text(),
        ensures
            a == b,
    {
        reveal_strlit("GBDSC");
        reveal_strlit("AUBSB");
        reveal_strlit("BE");
        reveal_strlit("CACPA");
        reveal_strlit("FR");
        reveal_strlit("DEBLZ");
        reveal_strlit("GRBIC");
        reveal_strlit("HKNCC");
        reveal_strlit("ITNCC");
        reveal_strlit("LULUX");
        reveal_strlit("PLKNR");
        reveal_strlit("PTNCC");
        reveal_strlit("ESNCC");
        reveal_strlit("CHBCC");
        reveal_strlit("USABA");
        if a != b {
            let s = a.text();
            let t = b.text();
            assert(s.len() != t.len() || s[0] != t[0] || s[1] != t[1] || s[2] != t[2]);
        }
    }
}

impl From<KnownBankIdCode> for &str {
    fn from(input: KnownBankIdCode) -> (text: Self)
        ensures
            text@ == input.text(),
    {
        match input {
            KnownBankIdCode::GbBankIdCode => "GBDSC",
            KnownBankIdCode::AuBankIdCode => "AUBSB",
            KnownBankIdCode::BeBankIdCode => "BE",
            KnownBankIdCode::CaBankIdCode => "CACPA",
            KnownBankIdCode::FrBankIdCode => "FR",
            KnownBankIdCode::DeBankIdCode => "DEBLZ",
            KnownBankIdCode::GrBankIdCode => "GRBIC",
            KnownBankIdCode::HkBankIdCode => "HKNCC",
            KnownBankIdCode::ItBankIdCode => "ITNCC",
            KnownBankIdCode::LuBankIdCode => "LULUX",
            KnownBankIdCode::PlBankIdCode => "PLKNR",
            KnownBankIdCode::PtBankIdCode => "PTNCC",
            KnownBankIdCode::EsBankIdCode => "ESNCC",
            KnownBankIdCode::ChBankIdCode => "CHBCC",
            KnownBankIdCode::UsBankIdCode => "USABA",
        }
    }
}

impl FromSpecImpl<KnownBankIdCode> for &str {
    open spec fn obeys_from_spec() -> bool {
        true
    }

    open spec fn from_spec(input: KnownBankIdCode) -> Self {
        match input {
            KnownBankIdCode::GbBankIdCode => "GBDSC",
            KnownBankIdCode::AuBankIdCode => "AUBSB",
            KnownBankIdCode::BeBankIdCode => "BE",
            KnownBankIdCode::CaBankIdCode => "CACPA",
            KnownBankIdCode::FrBankIdCode => "FR",
            KnownBankIdCode::DeBankIdCode => "DEBLZ",
            KnownBankIdCode::GrBankIdCode => "GRBIC",
            KnownBankIdCode::HkBankIdCode => "HKNCC",
            KnownBankIdCode::ItBankIdCode => "ITNCC",
            KnownBankIdCode::LuBankIdCode => "LULUX",
            KnownBankIdCode::PlBankIdCode => "PLKNR",
            KnownBankIdCode::PtBankIdCode => "PTNCC",
            KnownBankIdCode::EsBankIdCode => "ESNCC",
            KnownBankIdCode::ChBankIdCode => "CHBCC",
            KnownBankIdCode::UsBankIdCode => "USABA",
        }
    }
}

impl FromStr for KnownBankIdCode {
    type Err = String;

    /// Reads a scheme from its code: the scheme whose code the input is, or
    /// the message that names the input.
    fn from_str(input: &str) -> (parsed: Result<Self, Self::Err>)
        ensures
            parsed matches Ok(code) ==> code.text() == input@,
            parsed matches Err(message) ==> message@ == unknown_bank_id_code_text(input@),
            parsed is Err <==> forall|c: KnownBankIdCode| c.text() != input@,
    {
        let parsed = if same_text(input, "GBDSC") {
            Ok(KnownBankIdCode::GbBankIdCode)
        } else if same_text(input, "AUBSB") {
            Ok(KnownBankIdCode::AuBankIdCode)
        } else if same_text(input, "BE") {
            Ok(KnownBankIdCode::BeBankIdCode)
        } else if same_text(input, "CACPA") {
            Ok(KnownBankIdCode::CaBankIdCode)
        } else if same_text(input, "FR") {
            Ok(KnownBankIdCode::FrBankIdCode)
        } else if same_text(input, "DEBLZ") {
            Ok(KnownBankIdCode::DeBankIdCode)
        } else if same_text(input, "GRBIC") {
            Ok(KnownBankIdCode::GrBankIdCode)
        } else if same_text(input, "HKNCC") {
            Ok(KnownBankIdCode::HkBankIdCode)
        } else if same_text(input, "ITNCC") {
            Ok(KnownBankIdCode::ItBankIdCode)
        } else if same_text(input, "LULUX") {
            Ok(KnownBankIdCode::LuBankIdCode)
        } else if same_text(input, "PLKNR") {
            Ok(KnownBankIdCode::PlBankIdCode)
        } else if same_text(input, "PTNCC") {
            Ok(KnownBankIdCode::PtBankIdCode)
        } else if same_text(input, "ESNCC") {
            Ok(KnownBankIdCode::EsBankIdCode)
        } else if same_text(input, "CHBCC") {
            Ok(KnownBankIdCode::ChBankIdCode)
        } else if same_text(input, "USABA") {
            Ok(KnownBankIdCode::UsBankIdCode)
        } else {
            let mut message = input.to_owned();
            message.append(" is not known bank id variant");
            Err(message)
        };
        assert(parsed matches Ok(code) ==> code.text() == input@);
        parsed
    }
}

} // verus!
