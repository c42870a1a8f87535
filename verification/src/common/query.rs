//! Query parameters: how a list of values becomes one value, and how a list
//! of parameters becomes a query string.

use vstd::prelude::*;

verus! {

/// A query parameter as a pair of texts: its name and its value.
pub type ParamText = (Seq<char>, Seq<char>);

/// A value that stands in a query string under a fixed name of its own.
pub trait QueryName {
    /// The name, as the service spells it.
    spec fn query_name_spec(&self) -> Seq<char>;

    /// The name, as the service spells it.
    fn query_name(&self) -> (r: &'static str)
        ensures
            r@ == self.query_name_spec(),
    ;
}

/// The parts in their order, with `sep` between every two of them.
pub open spec fn joined(parts: Seq<Seq<char>>, sep: Seq<char>) -> Seq<char>
    decreases parts.len(),
{
    if parts.len() == 0 {
        Seq::empty()
    } else if parts.len() == 1 {
        parts[0]
    } else {
        joined(parts.drop_last(), sep) + sep + parts.last()
    }
}

/// The names of the items, in the order of the items.
pub open spec fn names_of<T: QueryName>(items: Seq<T>) -> Seq<Seq<char>> {
    items.map_values(|item: T| item.query_name_spec())
}

/// What a list of values contributes to a query: nothing when the list is
/// absent or empty, else one parameter with the names joined by commas.
pub open spec fn list_param<T: QueryName>(name: Seq<char>, items: Option<Seq<T>>) -> Seq<ParamText> {
    match items {
        Some(list) => if list.len() > 0 {
            seq![(name, joined(names_of(list), ","@))]
        } else {
            seq![]
        },
        None => seq![],
    }
}

/// What a text contributes to a query: nothing when it is absent or empty,
/// else one parameter with the text as it is.
pub open spec fn text_param(name: Seq<char>, text: Option<Seq<char>>) -> Seq<ParamText> {
    match text {
        Some(t) => if t.len() > 0 {
            seq![(name, t)]
        } else {
            seq![]
        },
        None => seq![],
    }
}

/// What a flag contributes to a query: nothing when it is absent, else one
/// parameter that reads `true` or `false`.
pub open spec fn flag_param(name: Seq<char>, flag: Option<bool>) -> Seq<ParamText> {
    match flag {
        Some(b) => seq![(name, if b { "true"@ } else { "false"@ })],
        None => seq![],
    }
}

/// A parameter as a pair of texts.
pub open spec fn param_view(param: (&'static str, String)) -> ParamText {
    (param.0@, param.1@)
}

/// A list of parameters as pairs of texts.
pub open spec fn params_view(params: Seq<(&'static str, String)>) -> Seq<ParamText> {
    params.map_values(|param: (&'static str, String)| param_view(param))
}

/// A parameter as it stands in a query string: name, `=`, value.
pub open spec fn rendered_param(param: ParamText) -> Seq<char> {
    param.0 + "="@ + param.1
}

/// The query string of a list of parameters: each as `name=value`, in their
/// order, with `&` between every two. Nothing is escaped.
pub open spec fn rendered(params: Seq<ParamText>) -> Seq<char> {
    joined(params.map_values(|param: ParamText| rendered_param(param)), "&"@)
}

/// The test whether a parameter goes by `name`.
pub open spec fn goes_by(name: Seq<char>) -> spec_fn(ParamText) -> bool {
    |param: ParamText| param.0 == name
}

/// The test whether a parameter goes by another name than `name`.
pub open spec fn goes_by_another(name: Seq<char>) -> spec_fn(ParamText) -> bool {
    |param: ParamText| param.0 != name
}

/// The parameters of `params` that go by `name`.
#[verifier::opaque]
pub open spec fn named(params: Seq<ParamText>, name: Seq<char>) -> Seq<ParamText> {
    params.filter(goes_by(name))
}

/// The parameters of `params` that go by another name than `name`.
#[verifier::opaque]
pub open spec fn not_named(params: Seq<ParamText>, name: Seq<char>) -> Seq<ParamText> {
    params.filter(goes_by_another(name))
}

/// Looking for a name in two lists put together is looking for it in each.
pub proof fn lemma_by_name_in_both(
    front: Seq<ParamText>,
    back: Seq<ParamText>,
    wanted: Seq<char>,
)
    ensures
        named(front + back, wanted) == named(front, wanted) + named(back, wanted),
        not_named(front + back, wanted) == not_named(front, wanted) + not_named(back, wanted),
{
    reveal(named);
    reveal(not_named);
    Seq::filter_distributes_over_add(front, back, goes_by(wanted));
    Seq::filter_distributes_over_add(front, back, goes_by_another(wanted));
}

/// What one field contributes to a query: nothing, or one parameter that
/// goes by `name`.
pub open spec fn is_part(part: Seq<ParamText>, name: Seq<char>) -> bool {
    part.len() == 0 || (part.len() == 1 && part[0].0 == name)
}

/// Whatever a list, a text or a flag contributes goes by the name it was
/// given.
pub proof fn lemma_contributions_are_parts<T: QueryName>(
    name: Seq<char>,
    items: Option<Seq<T>>,
    text: Option<Seq<char>>,
    flag: Option<bool>,
)
    ensures
        is_part(list_param(name, items), name),
        is_part(text_param(name, text), name),
        is_part(flag_param(name, flag), name),
{
}

/// Looking for a name in the contribution of one field finds all of it under
/// the field's own name and none of it under any other.
pub proof fn lemma_part_by_name(
    part: Seq<ParamText>,
    name: Seq<char>,
    wanted: Seq<char>,
)
    requires
        is_part(part, name),
    ensures
        wanted == name ==> named(part, wanted) == part && not_named(part, wanted)
            == Seq::<ParamText>::empty(),
        wanted != name ==> not_named(part, wanted) == part && named(part, wanted)
            == Seq::<ParamText>::empty(),
{
    reveal(named);
    reveal(not_named);
    reveal_with_fuel(Seq::filter, 2);
    let yes = goes_by(wanted);
    let no = goes_by_another(wanted);
    if part.len() == 1 {
        assert(part.drop_last().len() == 0);
        assert(part.last() == part[0]);
        if wanted == name {
            assert(part.filter(yes) =~= part);
            assert(part.filter(no) =~= Seq::empty());
        } else {
            assert(part.filter(no) =~= part);
            assert(part.filter(yes) =~= Seq::empty());
        }
    } else {
        assert(part.filter(yes) =~= Seq::empty());
        assert(part.filter(no) =~= Seq::empty());
        assert(part =~= Seq::empty());
    }
}

/// Joins the names of `items` with commas, in the order of `items`.
pub fn join_names<T: QueryName>(items: &[T]) -> (r: String)
    ensures
        r@ == joined(names_of(items@), ","@),
{
    let mut out = String::new();
    let mut i: usize = 0;
    while i < items.len()
        invariant
            i <= items.len(),
            out@ == joined(names_of(items@.take(i as int)), ","@),
        decreases items.len() - i,
    {
        let name = items[i].query_name();
        proof {
            let before = names_of(items@.take(i as int));
            let after = names_of(items@.take(i + 1));
            assert(after.drop_last() =~= before);
            assert(after.last() == name@);
        }
        if i > 0 {
            out.append(",");
        }
        out.append(name);
        i = i + 1;
    }
    proof {
        assert(items@.take(items@.len() as int) =~= items@);
    }
    out
}

/// Writes `params` as a query string: `name=value` for each, with `&` between
/// every two. Nothing is escaped.
pub fn render_query(params: &Vec<(&'static str, String)>) -> (r: String)
    ensures
        r@ == rendered(params_view(params@)),
{
    let mut out = String::new();
    let mut i: usize = 0;
    while i < params.len()
        invariant
            i <= params.len(),
            out@ == rendered(params_view(params@.take(i as int))),
        decreases params.len() - i,
    {
        proof {
            let before = params_view(params@.take(i as int)).map_values(
                |param: ParamText| rendered_param(param),
            );
            let after = params_view(params@.take(i + 1)).map_values(
                |param: ParamText| rendered_param(param),
            );
            assert(after.drop_last() =~= before);
            assert(after.last() == rendered_param(param_view(params@[i as int])));
        }
        if i > 0 {
            out.append("&");
        }
        let ghost start = out@;
        out.append(params[i].0);
        out.append("=");
        out.append(params[i].1.as_str());
        proof {
            assert(out@ =~= start + rendered_param(param_view(params@[i as int])));
        }
        i = i + 1;
    }
    proof {
        assert(params@.take(params@.len() as int) =~= params@);
    }
    out
}

} // verus!
