use vstd::prelude::*;

use crate::error::BuildError;
use crate::scanner::{names_view, native_functions, scan_declarations, sql_tokens};

verus! {

/// The opening of every generated source: the host's headers and the mark
/// that makes the compiled file a loadable module.
pub open spec fn preamble() -> Seq<char> {
    "#\x69nclude \"postgres.h\"\n#\x69nclude \"fmgr.h\"\n\nPG_MODULE_MAGIC;\n\n"@
}

/// The statement that registers one native function with the host's dispatcher.
pub open spec fn registration(name: Seq<char>) -> Seq<char> {
    "PG_FUNCTION_INFO_V1("@ + name + ");\n\n"@
}

/// The registrations of `names`, one after another, in order.
pub open spec fn registrations(names: Seq<Seq<char>>) -> Seq<char>
    decreases names.len(),
{
    if names.len() == 0 {
        seq![]
    } else {
        registrations(names.drop_last()) + registration(names.last())
    }
}

/// The whole generated source for `names`.
pub open spec fn wrapper_source(names: Seq<Seq<char>>) -> Seq<char> {
    preamble() + registrations(names)
}

/// The generated source: the preamble, then one registration per name, in the
/// order of `names`.
pub fn registration_source(names: &Vec<String>) -> (r: String)
    ensures
        r@ == wrapper_source(names_view(names@)),
{
    let mut out = String::from_str("#\x69nclude \"postgres.h\"\n#\x69nclude \"fmgr.h\"\n\nPG_MODULE_MAGIC;\n\n");
    let mut i: usize = 0;
    while i < names.len()
        invariant
            i <= names.len(),
            out@ == preamble() + registrations(names_view(names@).take(i as int)),
        decreases names.len() - i,
    {
        out.append("PG_FUNCTION_INFO_V1(");
        out.append(names[i].as_str());
        out.append(");\n\n");
        assert(names_view(names@).take(i + 1).drop_last() == names_view(names@).take(i as int));
        i = i + 1;
    }
    assert(names_view(names@).take(i as int) == names_view(names@));
    out
}

/// The generated source for the native functions that an SQL text declares;
/// `ScanFailed` where the text does not tokenize.
pub fn build_c_wrapper(sql: &str) -> (r: Result<String, BuildError>)
    ensures
        match sql_tokens(sql@) {
            Some(ts) => r is Ok && r->Ok_0@ == wrapper_source(native_functions(ts)),
            None => r is Err && r->Err_0 is ScanFailed,
        },
{
    let names = scan_declarations(sql)?;
    Ok(registration_source(&names))
}

/// The registrations of two name sequences, one after the other, are those of
/// the two sequences joined.
pub proof fn lemma_registrations_concat(a: Seq<Seq<char>>, b: Seq<Seq<char>>)
    ensures
        registrations(a + b) == registrations(a) + registrations(b),
    decreases b.len(),
{
    if b.len() == 0 {
        assert(a + b == a);
    } else {
        assert((a + b).drop_last() == a + b.drop_last());
        lemma_registrations_concat(a, b.drop_last());
    }
}

/// The generated source holds one registration per name and nothing else after
/// the preamble, in the order of the names: for every position `k`, it is the
/// preamble, the registrations of the names before `k`, the registration of
/// `names[k]`, and those of the names after it.
pub proof fn lemma_registration_order(names: Seq<Seq<char>>)
    ensures
        forall|k: int|
            0 <= k < names.len() ==> wrapper_source(names) == preamble() + registrations(
                names.take(k),
            ) + registration(names[k]) + registrations(#[trigger] names.skip(k + 1)),
{
    assert forall|k: int| 0 <= k < names.len() implies wrapper_source(names) == preamble()
        + registrations(names.take(k)) + registration(names[k]) + registrations(
        names.skip(k + 1),
    ) by {
        let single = seq![names[k]];
        assert(names == names.take(k) + single + names.skip(k + 1));
        lemma_registrations_concat(names.take(k) + single, names.skip(k + 1));
        lemma_registrations_concat(names.take(k), single);
        assert(single.drop_last() == Seq::<Seq<char>>::empty());
        assert(registrations(single.drop_last()) == Seq::<char>::empty());
        assert(Seq::<char>::empty() + registration(names[k]) == registration(names[k]));
    }
}

} // verus!
