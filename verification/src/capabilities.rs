//! The capabilities that configure the browser, and their JSON payload.

use serde_json::Value;
use vstd::prelude::*;
use vstd::string::StringExecFns;

use crate::json::{
    insert_member, json_array, json_bool, json_object, json_of, json_text, jsons_of, members_of,
    new_members, no_members, Json,
};

verus! {

/// A command-line argument for the browser.
#[derive(Clone, Copy, Debug, PartialEq, Eq, Structural)]
pub enum Args {
    /// Run the browser without any visible UI. In the payload it stands as
    /// `-headless`.
    Headless,
}

impl Args {
    /// The flag that the browser expects for this argument.
    pub open spec fn tag(&self) -> Seq<char> {
        match self {
            Args::Headless => "-headless"@,
        }
    }

    /// The flag that the browser expects for this argument.
    pub fn flag(&self) -> (s: &'static str)
        ensures
            s@ == self.tag(),
    {
        match self {
            Args::Headless => "-headless",
        }
    }
}

/// The options that control the behaviour of the browser.
#[derive(Debug, PartialEq, Eq)]
pub struct Capabilities {
    pub accept_insecure_certs: bool,
    pub application_cache_enabled: bool,
    pub args: Vec<Args>,
    pub use_automation_extension: bool,
}

/// The JSON array of the flags of a list of arguments, in their order.
pub open spec fn flags_json(args: Seq<Args>) -> Seq<Json> {
    args.map_values(|a: Args| Json::Text(a.tag()))
}

impl Capabilities {
    /// The options object: the four fields under their camel-case keys, the
    /// arguments as the array of their flags.
    pub open spec fn options(&self) -> Map<Seq<char>, Json> {
        no_members().insert(
            "acceptInsecureCerts"@,
            Json::Bool(self.accept_insecure_certs),
        ).insert("applicationCacheEnabled"@, Json::Bool(self.application_cache_enabled)).insert(
            "args"@,
            Json::Array(flags_json(self.args@)),
        ).insert("useAutomationExtension"@, Json::Bool(self.use_automation_extension))
    }

    /// The payload: the options object under the one key `moz:firefoxOptions`.
    pub open spec fn payload(&self) -> Map<Seq<char>, Json> {
        no_members().insert("moz:firefoxOptions"@, Json::Object(self.options()))
    }

    /// The flags of the arguments as a JSON array.
    fn args_value(&self) -> (r: Value)
        ensures
            json_of(r) == Json::Array(flags_json(self.args@)),
    {
        let mut items: Vec<Value> = Vec::new();
        let mut i: usize = 0;
        while i < self.args.len()
            invariant
                i <= self.args.len(),
                jsons_of(items@) == flags_json(self.args@.subrange(0, i as int)),
            decreases self.args.len() - i,
        {
            let ghost before = items@;
            let item = json_text(String::from_str(self.args[i].flag()));
            items.push(item);
            proof {
                assert(jsons_of(items@) =~= jsons_of(before).push(json_of(item)));
                assert(self.args@.subrange(0, i + 1) =~= self.args@.subrange(0, i as int).push(
                    self.args@[i as int],
                ));
                assert(flags_json(self.args@.subrange(0, i + 1)) =~= flags_json(
                    self.args@.subrange(0, i as int),
                ).push(Json::Text(self.args@[i as int].tag())));
            }
            i += 1;
        }
        proof {
            assert(self.args@.subrange(0, i as int) =~= self.args@);
        }
        json_array(items)
    }

    /// Builds the payload to merge into a session request: a map with the one
    /// key `moz:firefoxOptions`, whose value is the options object.
    pub fn to_map(&self) -> (r: serde_json::Map<String, Value>)
        ensures
            members_of(r) == self.payload(),
    {
        let mut options = new_members(4);
        insert_member(
            &mut options,
            String::from_str("acceptInsecureCerts"),
            json_bool(self.accept_insecure_certs),
        );
        insert_member(
            &mut options,
            String::from_str("applicationCacheEnabled"),
            json_bool(self.application_cache_enabled),
        );
        insert_member(&mut options, String::from_str("args"), self.args_value());
        insert_member(
            &mut options,
            String::from_str("useAutomationExtension"),
            json_bool(self.use_automation_extension),
        );
        let mut map = new_members(1);
        insert_member(&mut map, String::from_str("moz:firefoxOptions"), json_object(options));
        map
    }
}

impl From<&Capabilities> for serde_json::Map<String, Value> {
    /// The payload of the capabilities, as `Capabilities::to_map` builds it.
    fn from(cap: &Capabilities) -> (map: Self)
        ensures
            members_of(map) == cap.payload(),
    {
        cap.to_map()
    }
}

// A map of `serde_json` cannot be written down in a specification, so the
// conversions have no `from_spec`: what they return is stated over
// `members_of`, in their own `ensures`.
impl vstd::std_specs::convert::FromSpecImpl<&Capabilities> for serde_json::Map<String, Value> {
    open spec fn obeys_from_spec() -> bool {
        false
    }

    open spec fn from_spec(cap: &Capabilities) -> Self {
        arbitrary()
    }
}

impl From<Capabilities> for serde_json::Map<String, Value> {
    /// The payload of the capabilities, as `Capabilities::to_map` builds it.
    fn from(cap: Capabilities) -> (map: Self)
        ensures
            members_of(map) == cap.payload(),
    {
        cap.to_map()
    }
}

impl vstd::std_specs::convert::FromSpecImpl<Capabilities> for serde_json::Map<String, Value> {
    open spec fn obeys_from_spec() -> bool {
        false
    }

    open spec fn from_spec(cap: Capabilities) -> Self {
        arbitrary()
    }
}

} // verus!
