use vstd::prelude::*;
use vstd::string::to_string_from_display_ensures;

verus! {

/// Lets `serde_json::Value` stand in fields and signatures; Verus sees no
/// structure inside it, the library only carries such values.
#[verifier::external_type_specification]
#[verifier::external_body]
pub struct ExJsonValue(serde_json::Value);

/// Relies on the `Clone` that `serde_json::Value` derives: the copy is the
/// same JSON value.
pub assume_specification[ <serde_json::Value as Clone>::clone ](v: &serde_json::Value) -> (r:
    serde_json::Value)
    ensures
        r == *v,
;

/// The function part of a tool call: a name and its named arguments, in the
/// order the backend sent them.
pub struct FunctionToCall {
    pub name: String,
    pub arguments: Vec<(String, serde_json::Value)>,
}

/// A tool that the model asks the application to call.
pub struct ToolToCall {
    pub function: FunctionToCall,
}

/// What a tool call carries, over mathematical values.
pub struct ToolCallView {
    pub name: Seq<char>,
    pub arguments: Seq<(Seq<char>, serde_json::Value)>,
}

pub open spec fn argument_views(args: Seq<(String, serde_json::Value)>) -> Seq<
    (Seq<char>, serde_json::Value),
> {
    args.map_values(|a: (String, serde_json::Value)| (a.0@, a.1))
}

impl View for ToolToCall {
    type V = ToolCallView;

    open spec fn view(&self) -> ToolCallView {
        ToolCallView {
            name: self.function.name@,
            arguments: argument_views(self.function.arguments@),
        }
    }
}

pub open spec fn tool_call_views(calls: Seq<ToolToCall>) -> Seq<ToolCallView> {
    calls.map_values(|c: ToolToCall| c@)
}

impl ToolToCall {
    pub fn new(function_name: String, function_args: Vec<(String, serde_json::Value)>) -> (r: Self)
        ensures
            r@ == (ToolCallView {
                name: function_name@,
                arguments: argument_views(function_args@),
            }),
    {
        ToolToCall { function: FunctionToCall { name: function_name, arguments: function_args } }
    }

    pub fn get_function_name(&self) -> (r: &String)
        ensures
            r@ == self@.name,
    {
        &self.function.name
    }

    /// Each argument with its value written as JSON text, in order.
    pub fn get_arguments(&self) -> (r: Vec<(String, String)>)
        ensures
            r@.len() == self.function.arguments@.len(),
            forall|i: int|
                #![trigger r@[i]]
                0 <= i < r@.len() ==> r@[i].0@ == self.function.arguments@[i].0@
                    && to_string_from_display_ensures::<serde_json::Value>(
                    &self.function.arguments@[i].1,
                    r@[i].1,
                ),
    {
        let mut out: Vec<(String, String)> = Vec::new();
        let mut i: usize = 0;
        while i < self.function.arguments.len()
            invariant
                i <= self.function.arguments@.len(),
                out@.len() == i,
                forall|j: int|
                    #![trigger out@[j]]
                    0 <= j < i ==> out@[j].0@ == self.function.arguments@[j].0@
                        && to_string_from_display_ensures::<serde_json::Value>(
                        &self.function.arguments@[j].1,
                        out@[j].1,
                    ),
            decreases self.function.arguments@.len() - i,
        {
            let arg = &self.function.arguments[i];
            let text = arg.1.to_string();
            out.push((arg.0.clone(), text));
            i += 1;
        }
        out
    }

    /// A copy with the same name and arguments.
    pub fn duplicate(&self) -> (r: Self)
        ensures
            r@ == self@,
    {
        let mut args: Vec<(String, serde_json::Value)> = Vec::new();
        let mut i: usize = 0;
        while i < self.function.arguments.len()
            invariant
                i <= self.function.arguments@.len(),
                args@.len() == i,
                forall|j: int|
                    #![trigger args@[j]]
                    0 <= j < i ==> args@[j].0@ == self.function.arguments@[j].0@ && args@[j].1
                        == self.function.arguments@[j].1,
            decreases self.function.arguments@.len() - i,
        {
            let arg = &self.function.arguments[i];
            args.push((arg.0.clone(), arg.1.clone()));
            i += 1;
        }
        assert(argument_views(args@) =~= argument_views(self.function.arguments@));
        ToolToCall { function: FunctionToCall { name: self.function.name.clone(), arguments: args } }
    }
}

/// Copies every call of a list, keeping the order.
pub fn duplicate_calls(calls: &Vec<ToolToCall>) -> (r: Vec<ToolToCall>)
    ensures
        tool_call_views(r@) == tool_call_views(calls@),
{
    let mut out: Vec<ToolToCall> = Vec::new();
    let mut i: usize = 0;
    while i < calls.len()
        invariant
            i <= calls@.len(),
            out@.len() == i,
            forall|j: int| #![trigger out@[j]] 0 <= j < i ==> out@[j]@ == calls@[j]@,
        decreases calls@.len() - i,
    {
        out.push(calls[i].duplicate());
        i += 1;
    }
    assert(tool_call_views(out@) =~= tool_call_views(calls@));
    out
}

} // verus!
