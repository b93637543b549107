//! What lowering and the driver need to know of the module around a function.

use crate::types::SignlessType;
use vstd::prelude::*;

verus! {

/// The type of a function: what it takes and what it gives back.
#[derive(Debug, Clone, PartialEq, Eq)]
pub struct Signature {
    pub params: Vec<SignlessType>,
    pub returns: Vec<SignlessType>,
}

/// One function of the module.
#[derive(Debug, Copy, Clone, PartialEq, Eq, Structural)]
pub struct Function {
    /// The index of its type among the module's signatures.
    pub type_index: u32,
    /// Its index among the functions that the module defines; `None` for an import.
    pub defined_index: Option<u32>,
}

/// The types of a module, by index.
#[derive(Debug, Clone, PartialEq, Eq)]
pub struct ModuleContext {
    pub signatures: Vec<Signature>,
    pub functions: Vec<Function>,
    pub globals: Vec<SignlessType>,
}

impl ModuleContext {
    /// The signature with index `index`, if the module has one.
    pub open spec fn spec_signature(self, index: u32) -> Option<Signature> {
        if index < self.signatures@.len() {
            Some(self.signatures@[index as int])
        } else {
            None
        }
    }

    /// The type of the function with index `func_idx`, if the module has that
    /// function and its type.
    pub open spec fn spec_func_type(self, func_idx: u32) -> Option<Signature> {
        if func_idx < self.functions@.len() {
            self.spec_signature(self.functions@[func_idx as int].type_index)
        } else {
            None
        }
    }

    /// The type of the global with index `global_index`, if the module has one.
    pub open spec fn spec_global_type(self, global_index: u32) -> Option<SignlessType> {
        if global_index < self.globals@.len() {
            Some(self.globals@[global_index as int])
        } else {
            None
        }
    }

    /// The index among the defined functions of the function with index
    /// `func_idx`; `None` for an import and for a function that the module lacks.
    pub open spec fn spec_defined_func_index(self, func_idx: u32) -> Option<u32> {
        if func_idx < self.functions@.len() {
            self.functions@[func_idx as int].defined_index
        } else {
            None
        }
    }

    /// The index of the function with the defined index `defined` among the
    /// first `n` functions of the module, if one of them has it.
    pub open spec fn func_index_among(self, defined: u32, n: nat) -> Option<u32>
        decreases n,
    {
        if n == 0 {
            None
        } else {
            match self.func_index_among(defined, (n - 1) as nat) {
                Some(i) => Some(i),
                None => if n <= self.functions@.len() && n - 1 <= u32::MAX && self.functions@[n
                    - 1].defined_index == Some(defined) {
                    Some((n - 1) as u32)
                } else {
                    None
                },
            }
        }
    }

    /// The index of the function with the defined index `defined`: the first
    /// function that has it.
    pub open spec fn spec_func_index(self, defined: u32) -> Option<u32> {
        self.func_index_among(defined, self.functions@.len())
    }

    /// The type of the function with the defined index `defined`.
    pub open spec fn spec_defined_func_type(self, defined: u32) -> Option<Signature> {
        match self.spec_func_index(defined) {
            Some(index) => self.spec_func_type(index),
            None => None,
        }
    }

    /// A function that was found among the first functions is found among more.
    pub proof fn lemma_func_index_stable(self, defined: u32, n: nat, m: nat)
        requires
            n <= m,
            self.func_index_among(defined, n) is Some,
        ensures
            self.func_index_among(defined, m) == self.func_index_among(defined, n),
        decreases m,
    {
        if n < m {
            self.lemma_func_index_stable(defined, n, (m - 1) as nat);
        }
    }

    /// The index of the function with the defined index `defined`.
    pub fn func_index(&self, defined: u32) -> (index: Option<u32>)
        ensures
            index == self.spec_func_index(defined),
    {
        let mut i: usize = 0;
        while i < self.functions.len()
            invariant
                i <= self.functions@.len(),
                self.func_index_among(defined, i as nat) is None,
            decreases self.functions.len() - i,
        {
            if i > u32::MAX as usize {
                proof {
                    self.lemma_no_func_index_past(defined, i as nat, self.functions@.len());
                }
                return None;
            }
            match self.functions[i].defined_index {
                Some(d) => {
                    if d == defined {
                        proof {
                            assert(self.func_index_among(defined, (i + 1) as nat) == Some(i as u32));
                            self.lemma_func_index_stable(
                                defined,
                                (i + 1) as nat,
                                self.functions@.len(),
                            );
                        }
                        return Some(i as u32);
                    }
                },
                None => {},
            }
            i += 1;
        }
        None
    }

    /// Past the indices that 32 bits can hold no function is found.
    pub proof fn lemma_no_func_index_past(self, defined: u32, n: nat, m: nat)
        requires
            u32::MAX < n <= m,
            self.func_index_among(defined, n) is None,
        ensures
            self.func_index_among(defined, m) is None,
        decreases m,
    {
        if n < m {
            self.lemma_no_func_index_past(defined, n, (m - 1) as nat);
        }
    }

    /// The type of the function with the defined index `defined`.
    pub fn defined_func_type(&self, defined: u32) -> (sig: Option<&Signature>)
        ensures
            sig == match self.spec_defined_func_type(defined) {
                Some(s) => Some(&s),
                None => None,
            },
    {
        match self.func_index(defined) {
            Some(index) => self.func_type(index),
            None => None,
        }
    }

    /// The signature with index `index`.
    pub fn signature(&self, index: u32) -> (sig: Option<&Signature>)
        ensures
            sig == match self.spec_signature(index) {
                Some(s) => Some(&s),
                None => None,
            },
    {
        if (index as usize) < self.signatures.len() {
            Some(&self.signatures[index as usize])
        } else {
            None
        }
    }

    /// The type of the function with index `func_idx`.
    pub fn func_type(&self, func_idx: u32) -> (sig: Option<&Signature>)
        ensures
            sig == match self.spec_func_type(func_idx) {
                Some(s) => Some(&s),
                None => None,
            },
    {
        if (func_idx as usize) < self.functions.len() {
            self.signature(self.functions[func_idx as usize].type_index)
        } else {
            None
        }
    }

    /// The type of the global with index `global_index`.
    pub fn global_type(&self, global_index: u32) -> (ty: Option<SignlessType>)
        ensures
            ty == self.spec_global_type(global_index),
    {
        if (global_index as usize) < self.globals.len() {
            Some(self.globals[global_index as usize])
        } else {
            None
        }
    }

    /// The index of the function `func_idx` among the defined functions; `None`
    /// for an import.
    pub fn defined_func_index(&self, func_idx: u32) -> (idx: Option<u32>)
        ensures
            idx == self.spec_defined_func_index(func_idx),
    {
        if (func_idx as usize) < self.functions.len() {
            self.functions[func_idx as usize].defined_index
        } else {
            None
        }
    }
}

} // verus!
