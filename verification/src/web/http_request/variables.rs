//! # Variables
//!
//! Request-scoped variable store attached to each request. Holds the route
//! parameters captured by the router and a "trace line" of values that
//! middleware and handlers can set and read back across the request
//! pipeline.

use vstd::prelude::*;

use crate::str_map::{Entries, KeyMap, StrMap, lookup, with_entry};
use crate::text::{concat, copy_string};
use crate::web::http_code::HttpCode;

verus! {

/// String identifying the destination type name in a failed
/// [`VariableError::CannotConvert`].
pub type ConvertTypeName = String;

/// String holding the name of the variable that could not be converted in a
/// failed [`VariableError::CannotConvert`].
pub type ConvertValue = String;

/// # VariableError
///
/// Errors that can occur when reading a variable from a [`Variables`] store.
#[derive(Debug)]
pub enum VariableError {
    /// The variable does not exist.
    Missing,
    /// The variable exists but could not be converted to the requested type.
    CannotConvert(ConvertValue, ConvertTypeName),
}

impl VariableError {
    /// The status a request that fails with this error is answered with:
    /// `404` for a missing variable, `500` for one that cannot be converted.
    pub fn http_code(&self) -> (r: HttpCode)
        ensures
            r == (match self {
                VariableError::Missing => HttpCode::NotFound,
                VariableError::CannotConvert(_, _) => HttpCode::InternalServerError,
            }),
    {
        match self {
            VariableError::Missing => HttpCode::NotFound,
            VariableError::CannotConvert(_, _) => HttpCode::InternalServerError,
        }
    }

    /// The message describing the error.
    pub fn message(&self) -> (r: String)
        ensures
            r@ == (match self {
                VariableError::Missing => "variable does not exist"@,
                VariableError::CannotConvert(v, t) => "could not convert '"@ + v@ + "' to "@ + t@,
            }),
    {
        match self {
            VariableError::Missing => copy_string("variable does not exist"),
            VariableError::CannotConvert(v, t) => {
                let a = concat("could not convert '", v.as_str());
                let b = concat(a.as_str(), "' to ");
                concat(b.as_str(), t.as_str())
            },
        }
    }
}

/// # Variables
///
/// Variables stored in the request: the route parameters, and the values
/// set along the request pipeline, of type `V`.
pub struct Variables<V> {
    route: StrMap,
    trace_line: KeyMap<V>,
}

impl<V> Variables<V> {
    /// The route parameters.
    pub closed spec fn route_vars(self) -> Entries {
        self.route@
    }

    /// The values set along the pipeline.
    pub closed spec fn trace(self) -> Seq<(Seq<char>, V)> {
        self.trace_line@
    }

    /// Creates a new store seeded with the route parameters captured by the
    /// router. The trace line starts empty.
    pub fn new(route_vars: StrMap) -> (r: Self)
        ensures
            r.route_vars() == route_vars@,
            r.trace() == Seq::<(Seq<char>, V)>::empty(),
    {
        Variables { trace_line: KeyMap::new(), route: route_vars }
    }

    /// # Get Route Variable
    ///
    /// The raw value of the route parameter `item`, or `Missing` when the
    /// route captured no such parameter.
    pub fn get_route_variable(&self, item: &str) -> (r: Result<&String, VariableError>)
        ensures
            match lookup(self.route_vars(), item@) {
                Some(v) => r matches Ok(x) && x@ == v,
                None => r matches Err(VariableError::Missing),
            },
    {
        match self.route.get(item) {
            Some(v) => Ok(v),
            None => Err(VariableError::Missing),
        }
    }

    /// # Get Variable
    ///
    /// The value set under `item`, or `Missing` when none was set.
    pub fn get_variable(&self, item: &str) -> (r: Result<&V, VariableError>)
        ensures
            match lookup(self.trace(), item@) {
                Some(v) => r matches Ok(x) && *x == v,
                None => r matches Err(VariableError::Missing),
            },
    {
        match self.trace_line.get(item) {
            Some(v) => Ok(v),
            None => Err(VariableError::Missing),
        }
    }

    /// # Set Variable
    ///
    /// Sets a variable on the trace line, returning the value it replaces.
    /// Route variables are not affected.
    pub fn set_variable(&mut self, key: String, val: V) -> (r: Option<V>)
        ensures
            final(self).trace() == with_entry(old(self).trace(), key@, val),
            final(self).route_vars() == old(self).route_vars(),
            r == lookup(old(self).trace(), key@),
    {
        self.trace_line.insert(key, val)
    }
}

} // verus!
