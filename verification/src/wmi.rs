use vstd::prelude::*;

use crate::text::{double_quotes, owned, push_signed_decimal, push_str, quote_doubled, signed_decimal};

verus! {

/// The `VARTYPE` of a 4-byte signed integer.
pub const VT_I4: u16 = 3;

/// The `VARTYPE` of a string (`BSTR`).
pub const VT_BSTR: u16 = 8;

/// The `VARTYPE` of a 4-byte unsigned integer.
pub const VT_UI4: u16 = 19;

/// Whether a `VARIANT` of this type holds a string, the only case in which its
/// string field may be read.
pub fn variant_holds_text(vt: u16) -> (b: bool)
    ensures
        b == (vt == VT_BSTR),
{
    vt == VT_BSTR
}

/// The string of a `VARIANT`, given its type and, where the type is `VT_BSTR`, the
/// text read from it: `None` for every other type.
pub fn variant_to_string(vt: u16, text: Option<String>) -> (r: Option<String>)
    ensures
        vt == VT_BSTR ==> r == text,
        vt != VT_BSTR ==> r is None,
{
    if vt == VT_BSTR {
        text
    } else {
        None
    }
}

/// The unsigned value of a `VARIANT` holding a 4-byte integer, signed or not, given
/// its type and its 4 value bytes read as a `u32`; `None` for every other type.
pub fn variant_to_u32(vt: u16, payload: u32) -> (r: Option<u32>)
    ensures
        (vt == VT_I4 || vt == VT_UI4) ==> r == Some(payload),
        !(vt == VT_I4 || vt == VT_UI4) ==> r is None,
{
    if vt == VT_I4 {
        Some(payload)
    } else if vt == VT_UI4 {
        Some(payload)
    } else {
        None
    }
}

/// The message for a `VARIANT` of a type that holds no integer.
pub open spec fn unexpected_variant_message(vt: u16) -> Seq<char> {
    "Unexpected VARIANT type: "@ + signed_decimal(vt as int)
}

/// The signed value of a `VARIANT` holding a 4-byte integer, given its type and its
/// 4 value bytes read as a `u32` (an unsigned value wraps as `as i32` does); an error
/// naming the type for every other type.
pub fn variant_to_i32(vt: u16, payload: u32) -> (r: Result<i32, String>)
    ensures
        (vt == VT_I4 || vt == VT_UI4) ==> r == Ok::<i32, String>(payload as i32),
        !(vt == VT_I4 || vt == VT_UI4) ==> (r matches Err(m) && m@ == unexpected_variant_message(vt)),
{
    if vt == VT_I4 || vt == VT_UI4 {
        Ok(payload as i32)
    } else {
        let mut m = owned("Unexpected VARIANT type: ");
        push_signed_decimal(&mut m, vt as i64);
        Err(m)
    }
}

/// The WQL query that selects the network adapters with exactly this name.
pub open spec fn adapter_query_text(name: Seq<char>) -> Seq<char> {
    "SELECT * FROM Win32_NetworkAdapter WHERE Name = '"@ + quote_doubled(name) + "'"@
}

/// The WQL query that selects the network adapters with exactly this name, the name
/// written as a quoted literal with its quotes doubled.
pub fn adapter_query(name: &str) -> (q: String)
    ensures
        q@ == adapter_query_text(name@),
{
    let mut q = owned("SELECT * FROM Win32_NetworkAdapter WHERE Name = '");
    let quoted = double_quotes(name);
    push_str(&mut q, quoted.as_str());
    push_str(&mut q, "'");
    q
}

/// Turning an adapter off or on.
#[derive(Clone, Copy, Debug, PartialEq, Eq, Structural)]
pub enum AdapterAction {
    Disable,
    Enable,
}

/// The name of the `Win32_NetworkAdapter` method that performs an action.
pub open spec fn method_text(action: AdapterAction) -> Seq<char> {
    match action {
        AdapterAction::Disable => "Disable"@,
        AdapterAction::Enable => "Enable"@,
    }
}

/// Where a toggle of an adapter stands.
#[derive(Clone, Copy, Debug, PartialEq, Eq, Structural)]
pub enum ToggleStage {
    /// The adapters with the name are being looked up.
    Querying,
    /// The method is being invoked on the first adapter found.
    Invoking,
    /// The toggle is over.
    Finished,
}

/// What the toggle asks for next.
#[derive(Debug)]
pub enum ToggleRequest {
    /// Run this WQL query and report how many adapters it matched.
    Query(String),
    /// Invoke this method on the first adapter matched and report its return value.
    Invoke(String),
    /// The toggle is over, with this outcome.
    Done(Result<(), String>),
}

/// Turning one adapter, found by its name, off or on. Each outside step reports
/// back either a number or the message of its failure; a failure ends the toggle
/// with that message.
#[derive(Clone, Debug)]
pub struct AdapterToggle {
    pub action: AdapterAction,
    pub name: String,
    pub stage: ToggleStage,
}

/// The message for a name that matched no adapter.
pub open spec fn not_found_message(name: Seq<char>) -> Seq<char> {
    "Adapter '"@ + name + "' not found"@
}

/// The message for a method that returned a nonzero code.
pub open spec fn error_code_message(action: AdapterAction, code: i32) -> Seq<char> {
    method_text(action) + " returned error code: "@ + signed_decimal(code as int)
}

fn start_toggle(action: AdapterAction, name: &str) -> (r: (AdapterToggle, ToggleRequest))
    ensures
        r.0.action == action,
        r.0.name@ == name@,
        r.0.stage == ToggleStage::Querying,
        r.1 matches ToggleRequest::Query(q) && q@ == adapter_query_text(name@),
{
    (
        AdapterToggle { action, name: owned(name), stage: ToggleStage::Querying },
        ToggleRequest::Query(adapter_query(name)),
    )
}

/// Starts disabling the adapter with this name: the first request is the query for it.
pub fn disable_adapter(name: &str) -> (r: (AdapterToggle, ToggleRequest))
    ensures
        r.0.action == AdapterAction::Disable,
        r.0.name@ == name@,
        r.0.stage == ToggleStage::Querying,
        r.1 matches ToggleRequest::Query(q) && q@ == adapter_query_text(name@),
{
    start_toggle(AdapterAction::Disable, name)
}

/// Starts enabling the adapter with this name: the first request is the query for it.
pub fn enable_adapter(name: &str) -> (r: (AdapterToggle, ToggleRequest))
    ensures
        r.0.action == AdapterAction::Enable,
        r.0.name@ == name@,
        r.0.stage == ToggleStage::Querying,
        r.1 matches ToggleRequest::Query(q) && q@ == adapter_query_text(name@),
{
    start_toggle(AdapterAction::Enable, name)
}

impl AdapterToggle {
    /// Takes the report of the step asked for and says what comes next:
    /// after the query, no match ends with "not found" and a match asks for the
    /// method; after the method, 0 ends with success and any other code ends with an
    /// error that names it; a failure of either step ends with its message.
    pub fn advance(&mut self, report: Result<i32, String>) -> (next: ToggleRequest)
        requires
            old(self).stage != ToggleStage::Finished,
        ensures
            final(self).action == old(self).action,
            final(self).name@ == old(self).name@,
            match report {
                Err(m) => final(self).stage == ToggleStage::Finished
                    && (next matches ToggleRequest::Done(Err(e)) && e@ == m@),
                Ok(n) => if old(self).stage == ToggleStage::Querying {
                    if n == 0 {
                        final(self).stage == ToggleStage::Finished
                            && (next matches ToggleRequest::Done(Err(e))
                            && e@ == not_found_message(old(self).name@))
                    } else {
                        final(self).stage == ToggleStage::Invoking
                            && (next matches ToggleRequest::Invoke(method)
                            && method@ == method_text(old(self).action))
                    }
                } else {
                    final(self).stage == ToggleStage::Finished
                        && if n == 0 {
                            next matches ToggleRequest::Done(Ok(()))
                        } else {
                            next matches ToggleRequest::Done(Err(e))
                                && e@ == error_code_message(old(self).action, n)
                        }
                },
            },
    {
        match report {
            Err(m) => {
                self.stage = ToggleStage::Finished;
                ToggleRequest::Done(Err(m))
            },
            Ok(n) => {
                if self.stage == ToggleStage::Querying {
                    if n == 0 {
                        self.stage = ToggleStage::Finished;
                        let mut e = owned("Adapter '");
                        push_str(&mut e, self.name.as_str());
                        push_str(&mut e, "' not found");
                        ToggleRequest::Done(Err(e))
                    } else {
                        self.stage = ToggleStage::Invoking;
                        ToggleRequest::Invoke(self.method())
                    }
                } else {
                    self.stage = ToggleStage::Finished;
                    if n == 0 {
                        ToggleRequest::Done(Ok(()))
                    } else {
                        let mut e = self.method();
                        push_str(&mut e, " returned error code: ");
                        push_signed_decimal(&mut e, n as i64);
                        ToggleRequest::Done(Err(e))
                    }
                }
            },
        }
    }

    /// The name of the method this toggle invokes.
    pub fn method(&self) -> (m: String)
        ensures
            m@ == method_text(self.action),
    {
        match self.action {
            AdapterAction::Disable => owned("Disable"),
            AdapterAction::Enable => owned("Enable"),
        }
    }
}

} // verus!
