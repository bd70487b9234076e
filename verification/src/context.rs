//! The state of one compilation pass: where its declarations live, and the
//! records made of them so far.

use vstd::prelude::*;
use vstd::string::StringExecFns;
use crate::metadata::{Metadata, MetadataView};

verus! {

/// The context of the conversions of one compilation unit. It is made once
/// for a pass, handed to each conversion in turn, and dropped after the pass.
/// Records are only ever added to it.
#[derive(Debug, Clone)]
pub struct ConversionContext {
    namespace: String,
    crate_name: String,
    items: Vec<Metadata>,
}

/// Model of a [`ConversionContext`].
pub struct ConversionContextView {
    /// The namespace that the unit declares.
    pub namespace: Seq<char>,
    /// The module path of every record of the unit.
    pub module: Seq<char>,
    /// The records registered so far, oldest first.
    pub items: Seq<MetadataView>,
}

impl View for ConversionContext {
    type V = ConversionContextView;

    closed spec fn view(&self) -> ConversionContextView {
        ConversionContextView {
            namespace: self.namespace@,
            module: self.crate_name@,
            items: self.items.deep_view(),
        }
    }
}

impl ConversionContext {
    /// A context for the unit `crate_name`, which declares `namespace`. The
    /// module path is the unit's name; the namespace plays no part in it.
    pub fn new(namespace: &str, crate_name: &str) -> (context: ConversionContext)
        ensures
            context@ == (ConversionContextView {
                namespace: namespace@,
                module: crate_name@,
                items: Seq::empty(),
            }),
    {
        let context = ConversionContext {
            namespace: String::from_str(namespace),
            crate_name: String::from_str(crate_name),
            items: Vec::new(),
        };
        assert(context.items.deep_view() =~= Seq::empty());
        context
    }

    /// The namespace that the unit declares.
    pub fn namespace(&self) -> (text: &str)
        ensures
            text@ == self@.namespace,
    {
        self.namespace.as_str()
    }

    /// The module path that every record of this unit gets.
    pub fn current_module_path(&self) -> (text: String)
        ensures
            text@ == self@.module,
    {
        self.crate_name.clone()
    }

    /// Adds a record behind those registered before. A record that equals an
    /// earlier one is added all the same.
    pub fn register(&mut self, record: Metadata)
        ensures
            final(self)@ == (ConversionContextView {
                items: old(self)@.items.push(record@),
                ..old(self)@
            }),
    {
        self.items.push(record);
        assert(self.items.deep_view() =~= old(self).items.deep_view().push(record@));
    }

    /// The records registered so far, oldest first.
    pub fn items(&self) -> (records: &Vec<Metadata>)
        ensures
            records.deep_view() == self@.items,
    {
        &self.items
    }

    /// How many records are registered.
    pub fn len(&self) -> (count: usize)
        ensures
            count == self@.items.len(),
    {
        self.items.len()
    }
}

} // verus!
