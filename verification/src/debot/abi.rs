//! The interface of a contract, as far as the engine reads it.

use crate::json;
use crate::json::{Json, JsonView};
use crate::text;
use vstd::prelude::*;

verus! {

/// The interface of a contract, as the JSON text that its type writes.
#[derive(Debug)]
pub struct Abi {
    pub json: String,
}

/// What an [`Abi`] stands for.
pub struct AbiView {
    pub json: Seq<char>,
}

impl DeepView for Abi {
    type V = AbiView;

    open spec fn deep_view(&self) -> AbiView {
        AbiView { json: self.json@ }
    }
}

impl Clone for Abi {
    fn clone(&self) -> (r: Self)
        ensures
            r.deep_view() == self.deep_view(),
    {
        Abi { json: self.json.clone() }
    }
}

/// What loading an interface comes to, given what came of parsing its text: the interface, or the
/// text of an error, which holds the parser's own.
pub open spec fn loaded_abi(parsed: Result<Seq<char>, Seq<char>>) -> Result<AbiView, Seq<char>> {
    match parsed {
        Ok(json) => Ok(AbiView { json }),
        Err(e) => Err("failed to parse abi: "@ + e),
    }
}

/// Loads an interface, given what came of parsing its text: the text that the interface's type
/// writes, or the text of the parser's error.
pub fn load_abi(parsed: Result<String, String>) -> (r: Result<Abi, String>)
    ensures
        match parsed {
            Ok(json) => r matches Ok(abi) && loaded_abi(Ok(json@)) == Ok::<AbiView, Seq<char>>(
                abi.deep_view(),
            ),
            Err(e) => r matches Err(message) && loaded_abi(Err(e@)) == Err::<AbiView, Seq<char>>(
                message@,
            ),
        },
{
    match parsed {
        Ok(json) => Ok(Abi { json }),
        Err(e) => Err(text::join("failed to parse abi: ", &e)),
    }
}

/// The first function with a name in a list of functions; an error where a function without a
/// name stands before it.
pub open spec fn function_with(functions: Seq<JsonView>, name: Seq<char>) -> Result<
    Option<JsonView>,
    (),
>
    decreases functions.len(),
{
    if functions.len() == 0 {
        Ok(None)
    } else {
        match functions[0].at("name"@).as_str() {
            Some(n) => if n == name {
                Ok(Some(functions[0]))
            } else {
                function_with(functions.drop_first(), name)
            },
            None => Err(()),
        }
    }
}

/// The parameters of the first function with a name in an interface; an error where the interface
/// lists no functions, a function without a name stands before it, or it lists no parameters.
pub open spec fn inputs_of(abi_json: JsonView, name: Seq<char>) -> Result<
    Option<Seq<JsonView>>,
    (),
> {
    match abi_json.at("functions"@) {
        JsonView::Array(functions) => match function_with(functions, name) {
            Ok(Some(function)) => match function.at("inputs"@) {
                JsonView::Array(inputs) => Ok(Some(inputs)),
                _ => Err(()),
            },
            Ok(None) => Ok(None),
            Err(()) => Err(()),
        },
        _ => Err(()),
    }
}

/// Finds the first function with a name in a list of functions.
pub fn find_function<'a>(functions: &'a Vec<Json>, name: &str) -> (r: Result<Option<&'a Json>, ()>)
    ensures
        match r {
            Ok(function) => function_with(json::items_model(functions@), name@) == Ok::<_, ()>(
                function.deep_view(),
            ),
            Err(()) => function_with(json::items_model(functions@), name@) is Err,
        },
{
    let ghost all = json::items_model(functions@);
    proof {
        json::lemma_items_model(functions@);
    }
    assert(all.skip(0) =~= all);
    let mut i: usize = 0;
    while i < functions.len()
        invariant
            i <= functions@.len(),
            all == json::items_model(functions@),
            all.len() == functions@.len(),
            forall|k: int| 0 <= k < functions@.len() ==> #[trigger] all[k] == functions@[k].model(),
            function_with(all, name@) == function_with(all.skip(i as int), name@),
        decreases functions@.len() - i,
    {
        assert(all[i as int] == functions@[i as int].model());
        assert(all.skip(i as int).drop_first() =~= all.skip(i + 1));
        match functions[i].get_str("name") {
            Some(n) => {
                if text::same(&n, name) {
                    return Ok(Some(&functions[i]));
                }
            },
            None => {
                return Err(());
            },
        }
        i += 1;
    }
    Ok(None)
}

/// Finds the parameters of the first function with a name in an interface.
pub fn find_inputs<'a>(abi_json: &'a Json, name: &str) -> (r: Result<Option<&'a Vec<Json>>, ()>)
    ensures
        match r {
            Ok(Some(inputs)) => inputs_of(abi_json.deep_view(), name@) == Ok::<_, ()>(
                Some(json::items_model(inputs@)),
            ),
            Ok(None) => inputs_of(abi_json.deep_view(), name@) == Ok::<_, ()>(
                None::<Seq<JsonView>>,
            ),
            Err(()) => inputs_of(abi_json.deep_view(), name@) is Err,
        },
{
    match abi_json.get("functions") {
        Some(Json::Array(functions)) => match find_function(functions, name) {
            Ok(Some(function)) => match function.get("inputs") {
                Some(Json::Array(inputs)) => Ok(Some(inputs)),
                _ => Err(()),
            },
            Ok(None) => Ok(None),
            Err(()) => Err(()),
        },
        _ => Err(()),
    }
}

/// Of the functions with a name the first one is found, provided that each one before it has a
/// name.
pub proof fn first_function_is_found(
    functions: Seq<JsonView>,
    names: Seq<Seq<char>>,
    i: int,
)
    requires
        0 <= i < functions.len(),
        names.len() == functions.len(),
        forall|j: int|
            0 <= j <= i ==> (#[trigger] functions[j]).at("name"@) == JsonView::Str(names[j]),
        forall|j: int| 0 <= j < i ==> #[trigger] names[j] != names[i],
    ensures
        function_with(functions, names[i]) == Ok::<Option<JsonView>, ()>(Some(functions[i])),
    decreases functions.len(),
{
    assert(functions[0].at("name"@) == JsonView::Str(names[0]));
    if i > 0 {
        let rest = functions.drop_first();
        let rest_names = names.drop_first();
        assert(names[0] != names[i]);
        assert(rest[i - 1] == functions[i] && rest_names[i - 1] == names[i]);
        assert forall|j: int| 0 <= j <= i - 1 implies (#[trigger] rest[j]).at("name"@)
            == JsonView::Str(rest_names[j]) by {
            assert(functions[j + 1].at("name"@) == JsonView::Str(names[j + 1]));
        }
        assert forall|j: int| 0 <= j < i - 1 implies #[trigger] rest_names[j] != rest_names[i
            - 1] by {
            assert(names[j + 1] != names[i]);
        }
        first_function_is_found(rest, rest_names, i - 1);
    }
}

/// No function is found where each has another name.
pub proof fn missing_function_is_not_found(
    functions: Seq<JsonView>,
    names: Seq<Seq<char>>,
    name: Seq<char>,
)
    requires
        names.len() == functions.len(),
        forall|j: int|
            0 <= j < functions.len() ==> (#[trigger] functions[j]).at("name"@) == JsonView::Str(
                names[j],
            ),
        !names.contains(name),
    ensures
        function_with(functions, name) == Ok::<Option<JsonView>, ()>(None),
    decreases functions.len(),
{
    if functions.len() > 0 {
        let rest = functions.drop_first();
        let rest_names = names.drop_first();
        assert(functions[0].at("name"@) == JsonView::Str(names[0]));
        assert(names[0] != name);
        assert forall|j: int| 0 <= j < rest.len() implies (#[trigger] rest[j]).at("name"@)
            == JsonView::Str(rest_names[j]) by {
            assert(functions[j + 1].at("name"@) == JsonView::Str(names[j + 1]));
        }
        assert(!rest_names.contains(name)) by {
            if rest_names.contains(name) {
                let j = choose|j: int| 0 <= j < rest_names.len() && rest_names[j] == name;
                assert(names[j + 1] == name);
            }
        }
        missing_function_is_not_found(rest, rest_names, name);
    }
}

/// A function whose name is no text ends the search for any function behind it.
pub proof fn nameless_function_ends_search(
    functions: Seq<JsonView>,
    names: Seq<Seq<char>>,
    name: Seq<char>,
    i: int,
)
    requires
        0 <= i < functions.len(),
        names.len() == functions.len(),
        forall|j: int|
            0 <= j < i ==> (#[trigger] functions[j]).at("name"@) == JsonView::Str(names[j]),
        forall|j: int| 0 <= j < i ==> #[trigger] names[j] != name,
        !(functions[i].at("name"@) is Str),
    ensures
        function_with(functions, name) is Err,
    decreases functions.len(),
{
    if i > 0 {
        let rest = functions.drop_first();
        let rest_names = names.drop_first();
        assert(functions[0].at("name"@) == JsonView::Str(names[0]));
        assert(names[0] != name);
        assert(rest[i - 1] == functions[i]);
        assert forall|j: int| 0 <= j < i - 1 implies (#[trigger] rest[j]).at("name"@)
            == JsonView::Str(rest_names[j]) by {
            assert(functions[j + 1].at("name"@) == JsonView::Str(names[j + 1]));
        }
        assert forall|j: int| 0 <= j < i - 1 implies #[trigger] rest_names[j] != name by {
            assert(names[j + 1] != name);
        }
        nameless_function_ends_search(rest, rest_names, name, i - 1);
    }
}

/// The parameters of a function are the list under `inputs` of the function that is found in the
/// list under `functions`.
pub proof fn parameters_are_listed(
    abi_json: JsonView,
    name: Seq<char>,
    functions: Seq<JsonView>,
    function: JsonView,
    inputs: Seq<JsonView>,
)
    requires
        abi_json.at("functions"@) == JsonView::Array(functions),
        function_with(functions, name) == Ok::<Option<JsonView>, ()>(Some(function)),
        function.at("inputs"@) == JsonView::Array(inputs),
    ensures
        inputs_of(abi_json, name) == Ok::<Option<Seq<JsonView>>, ()>(Some(inputs)),
{
}

/// Where no function is found there are no parameters; where there is no list to look in, the
/// interface is malformed.
pub proof fn parameters_are_missing(abi_json: JsonView, name: Seq<char>)
    ensures
        !(abi_json.at("functions"@) is Array) ==> inputs_of(abi_json, name) is Err,
        abi_json.at("functions"@) matches JsonView::Array(functions) && function_with(
            functions,
            name,
        ) == Ok::<Option<JsonView>, ()>(None) ==> inputs_of(abi_json, name) == Ok::<
            Option<Seq<JsonView>>,
            (),
        >(None),
{
}

/// An interface that parses is loaded as its type writes it, and one that does not is refused in
/// the words of the parser.
pub proof fn interface_is_loaded(json: Seq<char>, error: Seq<char>)
    ensures
        loaded_abi(Ok(json)) == Ok::<AbiView, Seq<char>>(AbiView { json }),
        loaded_abi(Err(error)) == Err::<AbiView, Seq<char>>("failed to parse abi: "@ + error),
{
}

} // verus!
