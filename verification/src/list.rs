//! List columns: the builder that the list type's factory produces, and the
//! immutable list column it finishes into. Rows are kept as whole list
//! scalars, one of the interchange encodings of a list column; rows are read
//! back by reference.

use crate::data_type::{ConcreteDataType, ListType};
use crate::value::{matches_type, pushed_model, ListValue, Value, ValueModel, ValueRef};
use vstd::pervasive::unreached;
use vstd::prelude::*;

verus! {

/// The model of list rows over `item_type`: an absent row is the column's
/// null, a present row is a list scalar.
pub open spec fn rows_list(s: Seq<Option<ListValue>>, item_type: ConcreteDataType) -> Seq<
    ValueModel,
> {
    s.map(
        |i: int, o: Option<ListValue>|
            match o {
                Option::Some(lv) => ValueModel::List(
                    match lv.items {
                        Option::None => Option::None,
                        Option::Some(items) => Option::Some(items@),
                    },
                    item_type,
                ),
                Option::None => ValueModel::Null,
            },
    )
}

/// The mutable accumulator of one list column; every row holds items of one
/// fixed inner type, chosen at construction.
pub struct ListVectorBuilder {
    item_type: ConcreteDataType,
    rows: Vec<Option<ListValue>>,
}

/// An immutable list column.
pub struct ListVector {
    item_type: ConcreteDataType,
    rows: Vec<Option<ListValue>>,
}

impl ListVectorBuilder {
    /// Well-formedness: every present row's item type is the builder's item
    /// type. Established by the factory and preserved by every push.
    pub closed spec fn wf(&self) -> bool {
        forall|i: int|
            0 <= i < self.rows@.len() ==> match #[trigger] self.rows@[i] {
                Option::Some(lv) => lv.datatype == self.item_type,
                Option::None => true,
            }
    }

    /// The list type this builder accumulates.
    pub closed spec fn data_type_spec(&self) -> ConcreteDataType {
        ConcreteDataType::List(ListType { inner: Box::new(self.item_type) })
    }

    /// The models of the rows accumulated so far.
    pub closed spec fn model(&self) -> Seq<ValueModel> {
        rows_list(self.rows@, self.item_type)
    }

    /// An empty list builder over `item_type` with room for `capacity` rows.
    pub fn with_type_capacity(item_type: ConcreteDataType, capacity: usize) -> (b:
        ListVectorBuilder)
        ensures
            (b.data_type_spec() == ConcreteDataType::List(
                ListType { inner: Box::new(item_type) },
            )),
            b.model() == Seq::<ValueModel>::empty(),
            b.wf(),
    {
        let b = ListVectorBuilder { item_type, rows: Vec::with_capacity(capacity) };
        proof {
            assert(b.model() =~= Seq::<ValueModel>::empty());
        }
        b
    }

    /// The list type this builder accumulates.
    pub fn data_type(&self) -> (t: ConcreteDataType)
        ensures
            t == self.data_type_spec(),
    {
        ConcreteDataType::List(ListType { inner: Box::new(self.item_type.duplicate()) })
    }

    /// Appends a list scalar, taking it whole; nulls are accepted as the
    /// type-polymorphic null row. The scalar's item type must equal the
    /// builder's.
    pub fn push(&mut self, value: Value)
        requires
            old(self).wf(),
            value@ is Null || matches_type(old(self).data_type_spec(), value@),
        ensures
            final(self).wf(),
            final(self).data_type_spec() == old(self).data_type_spec(),
            final(self).model() == old(self).model().push(
                pushed_model(old(self).data_type_spec(), value@),
            ),
    {
        match value {
            Value::Null => self.rows.push(None),
            Value::List(lv) => self.rows.push(Some(lv)),
            _ => unreached(),
        }
        proof {
            assert(self.model() =~= old(self).model().push(
                pushed_model(old(self).data_type_spec(), value@),
            ));
        }
    }

    /// Appends a null row.
    pub fn push_null(&mut self)
        requires
            old(self).wf(),
        ensures
            final(self).wf(),
            final(self).data_type_spec() == old(self).data_type_spec(),
            final(self).model() == old(self).model().push(ValueModel::Null),
    {
        self.rows.push(None);
        proof {
            assert(self.model() =~= old(self).model().push(ValueModel::Null));
        }
    }

    /// One-shot completion: consumes the builder and yields the immutable
    /// list column holding exactly the accumulated rows.
    pub fn finish(self) -> (v: ListVector)
        requires
            self.wf(),
        ensures
            v.wf(),
            v.data_type_spec() == self.data_type_spec(),
            v.model() == self.model(),
    {
        ListVector { item_type: self.item_type, rows: self.rows }
    }
}

impl ListVector {
    /// Well-formedness: every present row's item type is the column's item
    /// type. Finished builders always hand over well-formed columns.
    pub closed spec fn wf(&self) -> bool {
        forall|i: int|
            0 <= i < self.rows@.len() ==> match #[trigger] self.rows@[i] {
                Option::Some(lv) => lv.datatype == self.item_type,
                Option::None => true,
            }
    }

    /// The list type of this column.
    pub closed spec fn data_type_spec(&self) -> ConcreteDataType {
        ConcreteDataType::List(ListType { inner: Box::new(self.item_type) })
    }

    /// The models of this column's rows.
    pub closed spec fn model(&self) -> Seq<ValueModel> {
        rows_list(self.rows@, self.item_type)
    }

    /// The list type of this column.
    pub fn data_type(&self) -> (t: ConcreteDataType)
        ensures
            t == self.data_type_spec(),
    {
        ConcreteDataType::List(ListType { inner: Box::new(self.item_type.duplicate()) })
    }

    /// The number of rows.
    pub fn len(&self) -> (n: usize)
        ensures
            n == self.model().len(),
    {
        self.rows.len()
    }

    /// Whether the column has no rows.
    pub fn is_empty(&self) -> (b: bool)
        ensures
            b == (self.model().len() == 0),
    {
        self.rows.len() == 0
    }

    /// Whether row `i` is null.
    pub fn is_null(&self, i: usize) -> (b: bool)
        requires
            i < self.model().len(),
        ensures
            b == (self.model()[i as int] is Null),
    {
        self.rows[i].is_none()
    }

    /// Row `i` as a borrowed scalar; null rows come back as the null scalar.
    pub fn get_ref(&self, i: usize) -> (r: ValueRef<'_>)
        requires
            self.wf(),
            i < self.model().len(),
        ensures
            r@ == self.model()[i as int],
    {
        match &self.rows[i] {
            Option::Some(lv) => ValueRef::List(lv),
            Option::None => ValueRef::Null,
        }
    }
}

impl ListType {
    /// The factory of this list type's builder: the builder accumulates list
    /// scalars over this type's inner item type.
    pub fn create_mutable_vector(&self, capacity: usize) -> (b: ListVectorBuilder)
        ensures
            b.data_type_spec() == ConcreteDataType::List(*self),
            b.model() == Seq::<ValueModel>::empty(),
            b.wf(),
    {
        ListVectorBuilder::with_type_capacity(self.inner.duplicate(), capacity)
    }
}

} // verus!
