//! Variables and lists.

use crate::schema::{List, Value, Variable};
use crate::uid::Uid;
use vstd::prelude::*;

verus! {

/// Describes a variable: the value it starts with, and whether it is kept
/// in the cloud.
#[derive(Debug, Clone, PartialEq, Eq)]
pub struct VariableBuilder {
    pub value: Value,
    /// A cloud variable can only hold a number.
    pub is_cloud_variable: bool,
}

impl VariableBuilder {
    /// A variable that starts with the given value.
    pub fn new(starting_value: Value) -> (b: VariableBuilder)
        ensures
            b.value == starting_value,
            !b.is_cloud_variable,
    {
        VariableBuilder { value: starting_value, is_cloud_variable: false }
    }

    /// A cloud variable that starts with the given value.
    pub fn new_cloud_variable(starting_value: Value) -> (b: VariableBuilder)
        ensures
            b.value == starting_value,
            b.is_cloud_variable,
    {
        VariableBuilder { value: starting_value, is_cloud_variable: true }
    }

    /// The variable that `self` describes under the name `name`.
    pub open spec fn built(&self, name: String) -> Variable {
        Variable { name, value: self.value, is_cloud_variable: self.is_cloud_variable }
    }

    /// Builds the variable under the given name and identifier.
    pub fn build_with(&self, name_for_this_var: String, uid: Uid) -> (r: (Variable, Uid))
        ensures
            r.0 == self.built(name_for_this_var),
            r.1 == uid,
    {
        (
            Variable {
                name: name_for_this_var,
                value: self.value.clone(),
                is_cloud_variable: self.is_cloud_variable,
            },
            uid,
        )
    }

    /// Builds the variable under the given name and a fresh random
    /// identifier.
    pub fn build(&self, name_for_this_var: String) -> (r: (Variable, Uid))
        ensures
            r.0 == self.built(name_for_this_var),
            crate::uid::is_generated(r.1@),
    {
        self.build_with(name_for_this_var, Uid::generate())
    }
}

/// Describes a list: the values it starts with.
#[derive(Debug, Clone, PartialEq, Eq)]
pub struct ListBuilder {
    pub values: Vec<Value>,
}

impl ListBuilder {
    /// A list that starts with the given values.
    pub fn new(values: Vec<Value>) -> (b: ListBuilder)
        ensures
            b.values == values,
    {
        ListBuilder { values }
    }

    /// `list` is the list that `self` describes under the name `name`.
    pub open spec fn describes(&self, name: String, list: List) -> bool {
        list.name == name && list.values@ == self.values@
    }

    /// Builds the list under the given name and identifier.
    pub fn build_with(&self, name_for_this_list: String, uid: Uid) -> (r: (List, Uid))
        ensures
            self.describes(name_for_this_list, r.0),
            r.1 == uid,
    {
        let n: usize = self.values.len();
        let mut values: Vec<Value> = Vec::new();
        let mut i: usize = 0;
        while i < n
            invariant
                n == self.values@.len(),
                i <= n,
                values@ == self.values@.take(i as int),
            decreases n - i,
        {
            values.push(self.values[i].clone());
            assert(values@ =~= self.values@.take(i + 1));
            i += 1;
        }
        assert(values@ =~= self.values@);
        (List { name: name_for_this_list, values }, uid)
    }

    /// Builds the list under the given name and a fresh random identifier.
    pub fn build(&self, name_for_this_list: String) -> (r: (List, Uid))
        ensures
            self.describes(name_for_this_list, r.0),
            crate::uid::is_generated(r.1@),
    {
        self.build_with(name_for_this_list, Uid::generate())
    }
}

} // verus!
