//! Type mapper: native database type names and nullability markers to
//! generated-language type descriptors.

use vstd::prelude::*;
use vstd::string::StringExecFns;

verus! {

/// Content equality of two string slices.
pub fn str_eq(a: &str, b: &str) -> (r: bool)
    ensures
        r == (a@ == b@),
{
    let sa = a.to_owned();
    let sb = b.to_owned();
    sa == sb
}

/// The closed mapping table consulted by `map_type`: numeric becomes the
/// floating-point type, variable character becomes the text type, and any
/// native type without an entry becomes the empty unknown sentinel.
pub open spec fn spec_map_type(native: Seq<char>) -> Seq<char> {
    if native == "NUMBER"@ {
        "f64"@
    } else if native == "VARCHAR2"@ {
        "String"@
    } else {
        Seq::<char>::empty()
    }
}

/// Map a native database type name to a generated type name. Unmapped
/// native types map to the empty sentinel rather than failing, so generation
/// proceeds even for exotic column types.
pub fn map_type(native: &str) -> (t: String)
    ensures
        t@ == spec_map_type(native@),
{
    if str_eq(native, "NUMBER") {
        String::from_str("f64")
    } else if str_eq(native, "VARCHAR2") {
        String::from_str("String")
    } else {
        String::new()
    }
}

/// What the nullability marker does to an already-mapped type and the
/// nullable flag: an explicit "Y" wraps the type in the optional wrapper and
/// marks the field nullable, an explicit "N" marks it non-nullable, and any
/// other marker leaves both exactly as they were.
pub open spec fn spec_apply_nullable(ty: Seq<char>, nullable: Option<bool>, marker: Seq<char>) -> (
    Seq<char>,
    Option<bool>,
) {
    if marker == "Y"@ {
        ("Option<"@ + ty + ">"@, Option::Some(true))
    } else if marker == "N"@ {
        (ty, Option::Some(false))
    } else {
        (ty, nullable)
    }
}

/// Apply the nullability marker to a mapped type. Markers outside the
/// explicit "Y"/"N" sentinels leave the type and the nullable flag untouched
/// — nullability is set only by an explicit marker, never by default.
pub fn apply_nullable(ty: String, nullable: Option<bool>, marker: &str) -> (r: (
    String,
    Option<bool>,
))
    ensures
        r.0@ == spec_apply_nullable(ty@, nullable, marker@).0,
        r.1 == spec_apply_nullable(ty@, nullable, marker@).1,
{
    if str_eq(marker, "Y") {
        let mut wrapped = String::from_str("Option<");
        wrapped.append(ty.as_str());
        wrapped.append(">");
        (wrapped, Option::Some(true))
    } else if str_eq(marker, "N") {
        (ty, Option::Some(false))
    } else {
        (ty, nullable)
    }
}

/// Law of the mapping table, round tripped. A "NUMBER" column marked
/// nullable maps to the nullable-wrapped floating-point type; a "VARCHAR2"
/// column marked non-nullable maps to the bare text type; every native type
/// outside the table maps to the empty unknown sentinel.
pub proof fn lemma_mapping_round_trip()
    ensures
        spec_apply_nullable(spec_map_type("NUMBER"@), Option::None, "Y"@) == ("Option<f64>"@,
        Option::Some(true)),
        spec_apply_nullable(spec_map_type("VARCHAR2"@), Option::None, "N"@) == ("String"@,
        Option::Some(false)),
        forall|t: Seq<char>|
            t != "NUMBER"@ && t != "VARCHAR2"@ ==> #[trigger] spec_map_type(t)
                == Seq::<char>::empty(),
{
    reveal_strlit("NUMBER");
    reveal_strlit("VARCHAR2");
    reveal_strlit("Y");
    reveal_strlit("N");
    reveal_strlit("Option<");
    reveal_strlit(">");
    reveal_strlit("f64");
    reveal_strlit("Option<f64>");
    assert("NUMBER"@.len() == 6);
    assert("VARCHAR2"@.len() == 8);
    assert("NUMBER"@ != "VARCHAR2"@);
    assert("Y"@[0] == 'Y' && "N"@[0] == 'N');
    assert("Y"@ != "N"@);
    assert("Option<"@ + "f64"@ + ">"@ =~= "Option<f64>"@);
}

} // verus!
