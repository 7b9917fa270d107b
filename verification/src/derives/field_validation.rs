use vstd::prelude::*;
use vstd::string::StringExecFns;
use heck::CamelCase;

verus! {

/// The camel case form of a name, as `heck` computes it: the words of the
/// name, each with its first letter in upper case and the rest in lower case,
/// joined without a separator.
pub uninterp spec fn camel_case(name: Seq<char>) -> Seq<char>;

/// Calls `heck::CamelCase::to_camel_case` on a string slice. The contract
/// gives the result the name `camel_case` of the argument and claims nothing
/// else of it.
#[verifier::external_body]
fn to_camel_case(name: &str) -> (camel: String)
    ensures
        camel@ == camel_case(name@),
{
    name.to_camel_case()
}

/// The name of the trait that checks one field of a model: `_Assert`, the
/// name of the model, and the field's name as it stands in `field`.
pub open spec fn assert_trait_name(ident: Seq<char>, field: Seq<char>) -> Seq<char> {
    "_Assert"@ + ident + field
}

/// Builds the name of the trait that checks one field, from the model's name
/// and the field's name in camel case.
pub fn join_assert_trait_name(ident: &str, camel_field: &str) -> (name: String)
    ensures
        name@ == assert_trait_name(ident@, camel_field@),
{
    let mut name = String::from_str("_Assert");
    name.append(ident);
    name.append(camel_field);
    name
}

/// The names of the traits that check the fields of the model `ident`, one
/// for each field, in the order of the fields.
pub fn expand_field_validation(ident: &str, fields: &Vec<String>) -> (names: Vec<String>)
    ensures
        names.len() == fields.len(),
        forall|i: int|
            0 <= i < fields.len() ==> (#[trigger] names[i])@ == assert_trait_name(
                ident@,
                camel_case(fields[i]@),
            ),
{
    let mut names: Vec<String> = Vec::new();
    let mut i: usize = 0;
    while i < fields.len()
        invariant
            i <= fields.len(),
            names.len() == i,
            forall|j: int|
                0 <= j < i ==> (#[trigger] names[j])@ == assert_trait_name(
                    ident@,
                    camel_case(fields[j]@),
                ),
        decreases fields.len() - i,
    {
        let camel = to_camel_case(fields[i].as_str());
        names.push(join_assert_trait_name(ident, camel.as_str()));
        i = i + 1;
    }
    names
}

} // verus!
