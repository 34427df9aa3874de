//! Trusted Types: policies and the values they create.
use vstd::prelude::*;
use crate::navigation::DomError;

verus! {

/// A string that a policy vouched for as HTML.
pub struct TrustedHTML {
    pub data: String,
}

impl TrustedHTML {
    pub fn new(data: String) -> (r: TrustedHTML)
        ensures
            r.data == data,
    {
        TrustedHTML { data }
    }
}

/// A string that a policy vouched for as a script URL.
pub struct TrustedScriptURL {
    pub data: String,
}

impl TrustedScriptURL {
    pub fn new(data: String) -> (r: TrustedScriptURL)
        ensures
            r.data == data,
    {
        TrustedScriptURL { data }
    }
}

/// The kinds of trusted values.
#[derive(Clone, Copy, Debug, PartialEq, Eq, Structural)]
pub enum TrustedTypeName {
    TrustedHTML,
    TrustedScript,
    TrustedScriptURL,
}

/// What a policy's callback produced.
pub enum TrustedResult {
    HTMLOrScript(String),
    ScriptURL(String),
    Empty,
}

/// Which of a policy's callbacks exist.
#[derive(Clone, Copy, Debug, PartialEq, Eq, Structural)]
pub struct TrustedTypePolicyOptions {
    pub create_html: bool,
    pub create_script: bool,
    pub create_script_url: bool,
}

/// The policy has a callback for `name`.
pub open spec fn has_callback(options: TrustedTypePolicyOptions, name: TrustedTypeName) -> bool {
    match name {
        TrustedTypeName::TrustedHTML => options.create_html,
        TrustedTypeName::TrustedScript => options.create_script,
        TrustedTypeName::TrustedScriptURL => options.create_script_url,
    }
}

/// A named policy that turns strings into trusted values through its callbacks.
pub struct TrustedTypePolicy {
    pub name: String,
    pub options: TrustedTypePolicyOptions,
}

impl TrustedTypePolicy {
    pub fn new(name: String, options: TrustedTypePolicyOptions) -> (r: TrustedTypePolicy)
        ensures
            r.name == name,
            r.options == options,
    {
        TrustedTypePolicy { name, options }
    }

    pub fn name(&self) -> (r: String)
        ensures
            r == self.name,
    {
        self.name.clone()
    }

    /// The policy value for `name`. The callback runs outside: `callback_output` is what it
    /// returned, or none where it failed. Fails with a type error where the policy has no
    /// callback for `name` or the callback produced nothing.
    pub fn get_trusted_type_policy_value(
        &self,
        name: TrustedTypeName,
        callback_output: Option<String>,
    ) -> (r: Result<TrustedResult, DomError>)
        ensures
            !has_callback(self.options, name) || callback_output is None ==> r == Err::<TrustedResult, DomError>(DomError::Type),
            has_callback(self.options, name) && callback_output is Some ==> r == Ok::<TrustedResult, DomError>(
                if name == TrustedTypeName::TrustedScriptURL {
                    TrustedResult::ScriptURL(callback_output->0)
                } else {
                    TrustedResult::HTMLOrScript(callback_output->0)
                },
            ),
    {
        let present = match name {
            TrustedTypeName::TrustedHTML => self.options.create_html,
            TrustedTypeName::TrustedScript => self.options.create_script,
            TrustedTypeName::TrustedScriptURL => self.options.create_script_url,
        };
        if !present {
            return Err(DomError::Type);
        }
        match callback_output {
            None => Err(DomError::Type),
            Some(s) => match name {
                TrustedTypeName::TrustedScriptURL => Ok(TrustedResult::ScriptURL(s)),
                _ => Ok(TrustedResult::HTMLOrScript(s)),
            },
        }
    }

    /// Creates a trusted value of kind `name` from the policy value.
    pub fn create_trusted_type(&self, name: TrustedTypeName, callback_output: Option<String>) -> (r:
        Result<TrustedResult, DomError>)
        ensures
            !has_callback(self.options, name) || callback_output is None ==> r == Err::<TrustedResult, DomError>(DomError::Type),
            has_callback(self.options, name) && callback_output is Some ==> r == Ok::<TrustedResult, DomError>(
                if name == TrustedTypeName::TrustedScriptURL {
                    TrustedResult::ScriptURL(callback_output->0)
                } else {
                    TrustedResult::HTMLOrScript(callback_output->0)
                },
            ),
    {
        self.get_trusted_type_policy_value(name, callback_output)
    }

    /// Creates trusted HTML; fails with a data error where no HTML comes out.
    pub fn create_html(&self, callback_output: Option<String>) -> (r: Result<TrustedHTML, DomError>)
        ensures
            self.options.create_html && callback_output is Some ==> match r {
                Ok(h) => Some(h.data) == callback_output,
                Err(_) => false,
            },
            !(self.options.create_html && callback_output is Some) ==> r == Err::<TrustedHTML, DomError>(DomError::Data),
    {
        match self.create_trusted_type(TrustedTypeName::TrustedHTML, callback_output) {
            Ok(TrustedResult::HTMLOrScript(data)) => Ok(TrustedHTML::new(data)),
            _ => Err(DomError::Data),
        }
    }

    /// Creates a trusted script URL; fails with a data error where no URL comes out.
    pub fn create_script_url(&self, callback_output: Option<String>) -> (r: Result<
        TrustedScriptURL,
        DomError,
    >)
        ensures
            self.options.create_script_url && callback_output is Some ==> match r {
                Ok(u) => Some(u.data) == callback_output,
                Err(_) => false,
            },
            !(self.options.create_script_url && callback_output is Some) ==> r == Err::<TrustedScriptURL, DomError>(DomError::Data),
    {
        match self.create_trusted_type(TrustedTypeName::TrustedScriptURL, callback_output) {
            Ok(TrustedResult::ScriptURL(data)) => Ok(TrustedScriptURL::new(data)),
            _ => Err(DomError::Data),
        }
    }
}

/// Creates policies; remembers the names it gave out and its default policy.
pub struct TrustedTypePolicyFactory {
    pub default_policy: Option<TrustedTypePolicy>,
    pub created_policy_names: Vec<String>,
}

impl TrustedTypePolicyFactory {
    pub fn new() -> (r: TrustedTypePolicyFactory)
        ensures
            r.default_policy is None,
            r.created_policy_names@.len() == 0,
    {
        TrustedTypePolicyFactory { default_policy: None, created_policy_names: Vec::new() }
    }
}

} // verus!
