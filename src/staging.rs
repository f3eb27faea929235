//! What an emitted builder does at run time: its members start absent, the
//! setters fill them, and `build` checks completeness and assembles the record.
use vstd::prelude::*;
use crate::plan::{BuilderPlan, FieldDescriptor};

verus! {

/// One scalar value held by a field, or by an element of a sequence field.
#[derive(Clone, Debug, PartialEq, Eq)]
pub enum Item {
    Text(String),
    Int(i64),
}

/// A field's value: a scalar, or a sequence of scalars.
#[derive(Clone, Debug, PartialEq, Eq)]
pub enum Value {
    Single(Item),
    List(Vec<Item>),
}

pub enum ValueView {
    Single(Item),
    List(Seq<Item>),
}

impl View for Value {
    type V = ValueView;

    open spec fn view(&self) -> ValueView {
        match self {
            Value::Single(x) => ValueView::Single(*x),
            Value::List(xs) => ValueView::List(xs@),
        }
    }
}

/// One field of a built record: a required field holds its value, an
/// optional one holds its value or nothing.
#[derive(Clone, Debug, PartialEq, Eq)]
pub enum FieldValue {
    Required(Value),
    Optional(Option<Value>),
}

pub enum FieldOut {
    Required(ValueView),
    Optional(Option<ValueView>),
}

pub open spec fn slot_view(s: Option<Value>) -> Option<ValueView> {
    match s {
        Some(v) => Some(v@),
        None => None,
    }
}

impl View for FieldValue {
    type V = FieldOut;

    open spec fn view(&self) -> FieldOut {
        match self {
            FieldValue::Required(v) => FieldOut::Required(v@),
            FieldValue::Optional(s) => FieldOut::Optional(slot_view(*s)),
        }
    }
}

/// A failed `build`: the first required field, in declaration order, that
/// was never set.
#[derive(Clone, Debug, PartialEq, Eq)]
pub struct MissingField {
    pub field: String,
}

impl MissingField {
    /// The error's text: `<field> not found`.
    pub fn message(&self) -> (r: String)
        ensures
            r@ == self.field@ + " not found"@,
    {
        self.field.clone().concat(" not found")
    }
}

/// Why an appending setter was refused.
#[derive(Clone, Copy, Debug, PartialEq, Eq)]
pub enum StagingError {
    /// The field has no alias, so the builder has no appending setter for it.
    NoAccumulator,
    /// The field holds a scalar, to which nothing can be appended.
    NotASequence,
}

/// The members of a builder: one slot per field of the plan, absent until set.
pub struct Staging {
    slots: Vec<Option<Value>>,
}

impl View for Staging {
    type V = Seq<Option<ValueView>>;

    closed spec fn view(&self) -> Seq<Option<ValueView>> {
        self.slots@.map_values(|s: Option<Value>| slot_view(s))
    }
}

/// The slots of a builder that nothing was set on.
pub open spec fn fresh_slots(n: nat) -> Seq<Option<ValueView>> {
    Seq::new(n, |i: int| None)
}

/// The slot holds a scalar.
pub open spec fn holds_scalar(slot: Option<ValueView>) -> bool {
    slot matches Some(ValueView::Single(_))
}

/// A slot after its appending setter is called with `x`: an absent slot
/// starts a sequence, a present sequence grows at its end.
pub open spec fn appended(slot: Option<ValueView>, x: Item) -> Option<ValueView> {
    match slot {
        None => Some(ValueView::List(seq![x])),
        Some(ValueView::List(xs)) => Some(ValueView::List(xs.push(x))),
        Some(ValueView::Single(y)) => slot,
    }
}

/// Field `i` is required and its slot is absent.
pub open spec fn missing(fields: Seq<FieldDescriptor>, slots: Seq<Option<ValueView>>, i: int) -> bool {
    !fields[i].is_optional && slots[i] is None
}

pub open spec fn complete(fields: Seq<FieldDescriptor>, slots: Seq<Option<ValueView>>) -> bool {
    forall|i: int| 0 <= i < fields.len() ==> !#[trigger] missing(fields, slots, i)
}

pub open spec fn is_first_missing(
    fields: Seq<FieldDescriptor>,
    slots: Seq<Option<ValueView>>,
    i: int,
) -> bool {
    &&& 0 <= i < fields.len()
    &&& missing(fields, slots, i)
    &&& forall|j: int| 0 <= j < i ==> !#[trigger] missing(fields, slots, j)
}

pub open spec fn first_missing(fields: Seq<FieldDescriptor>, slots: Seq<Option<ValueView>>) -> int {
    choose|i: int| is_first_missing(fields, slots, i)
}

/// A field of the built record: an optional field passes its slot on as it
/// is, a required one unwraps it.
pub open spec fn field_out(f: FieldDescriptor, slot: Option<ValueView>) -> FieldOut {
    if f.is_optional {
        FieldOut::Optional(slot)
    } else {
        FieldOut::Required(slot->Some_0)
    }
}

/// What `build` gives on these slots: the record, or the name of the first
/// required field that is absent.
pub open spec fn build_result(
    fields: Seq<FieldDescriptor>,
    slots: Seq<Option<ValueView>>,
) -> Result<Seq<FieldOut>, Seq<char>> {
    if complete(fields, slots) {
        Ok(Seq::new(fields.len(), |i: int| field_out(fields[i], slots[i])))
    } else {
        Err(fields[first_missing(fields, slots)].ident@)
    }
}

pub open spec fn outs(rec: Seq<FieldValue>) -> Seq<FieldOut> {
    rec.map_values(|v: FieldValue| v@)
}

impl Item {
    pub fn copy(&self) -> (r: Item)
        ensures
            r == *self,
    {
        match self {
            Item::Text(s) => Item::Text(s.clone()),
            Item::Int(n) => Item::Int(*n),
        }
    }
}

impl Value {
    pub fn copy(&self) -> (r: Value)
        ensures
            r@ == self@,
    {
        match self {
            Value::Single(x) => Value::Single(x.copy()),
            Value::List(xs) => Value::List(copy_items(xs)),
        }
    }
}

fn copy_items(xs: &Vec<Item>) -> (r: Vec<Item>)
    ensures
        r@ == xs@,
{
    let mut out: Vec<Item> = Vec::new();
    let mut k: usize = 0;
    while k < xs.len()
        invariant
            k <= xs@.len(),
            out@ =~= xs@.subrange(0, k as int),
        decreases xs@.len() - k,
    {
        out.push(xs[k].copy());
        k = k + 1;
    }
    assert(out@ =~= xs@);
    out
}

fn copy_slot(s: &Option<Value>) -> (r: Option<Value>)
    ensures
        slot_view(r) == slot_view(*s),
{
    match s {
        Some(v) => Some(v.copy()),
        None => None,
    }
}

impl Staging {
    /// The builder that the record's factory returns: every member absent.
    pub fn new(plan: &BuilderPlan) -> (r: Staging)
        ensures
            r@ == fresh_slots(plan.fields@.len()),
    {
        let mut slots: Vec<Option<Value>> = Vec::new();
        let mut k: usize = 0;
        while k < plan.fields.len()
            invariant
                k <= plan.fields@.len(),
                slots@.len() == k,
                forall|i: int| 0 <= i < k ==> slots@[i] is None,
            decreases plan.fields@.len() - k,
        {
            slots.push(None);
            k = k + 1;
        }
        let r = Staging { slots };
        assert(r@ =~= fresh_slots(plan.fields@.len()));
        r
    }

    /// The whole-value setter of field `i`: its member now holds `v`.
    pub fn set(&mut self, i: usize, v: Value)
        requires
            i < old(self)@.len(),
        ensures
            final(self)@ == old(self)@.update(i as int, Some(v@)),
    {
        self.slots.set(i, Some(v));
        assert(self@ =~= old(self)@.update(i as int, Some(v@)));
    }

    /// The appending setter of field `i`, which exists only where the field
    /// has an alias: `x` goes to the end of the field's sequence.
    pub fn append(&mut self, plan: &BuilderPlan, i: usize, x: Item) -> (r: Result<
        (),
        StagingError,
    >)
        requires
            i < old(self)@.len(),
            old(self)@.len() == plan.fields@.len(),
        ensures
            plan.fields@[i as int].alias is None ==> r == Err::<(), StagingError>(
                StagingError::NoAccumulator,
            ),
            plan.fields@[i as int].alias is Some && holds_scalar(old(self)@[i as int]) ==> r == Err::<(), StagingError>(StagingError::NotASequence),
            r is Ok ==> final(self)@ == old(self)@.update(
                i as int,
                appended(old(self)@[i as int], x),
            ),
            r is Err ==> final(self)@ == old(self)@,
            plan.fields@[i as int].alias is Some && !holds_scalar(old(self)@[i as int]) ==> r is Ok,
    {
        if plan.fields[i].alias.is_none() {
            return Err(StagingError::NoAccumulator);
        }
        let ghost before = self@;
        let next = match &self.slots[i] {
            None => {
                let mut xs: Vec<Item> = Vec::new();
                xs.push(x);
                Value::List(xs)
            },
            Some(Value::List(xs)) => {
                let mut ys = copy_items(xs);
                ys.push(x);
                Value::List(ys)
            },
            Some(Value::Single(_)) => {
                return Err(StagingError::NotASequence);
            },
        };
        self.slots.set(i, Some(next));
        assert(self@ =~= before.update(i as int, appended(before[i as int], x)));
        Ok(())
    }

    fn find_missing(&self, fields: &Vec<FieldDescriptor>) -> (r: Option<usize>)
        requires
            self@.len() == fields@.len(),
        ensures
            match r {
                Some(k) => is_first_missing(fields@, self@, k as int),
                None => complete(fields@, self@),
            },
    {
        let mut k: usize = 0;
        while k < fields.len()
            invariant
                k <= fields@.len(),
                self@.len() == fields@.len(),
                forall|j: int| 0 <= j < k ==> !#[trigger] missing(fields@, self@, j),
            decreases fields@.len() - k,
        {
            assert(self@[k as int] == slot_view(self.slots@[k as int]));
            if !fields[k].is_optional && self.slots[k].is_none() {
                return Some(k);
            }
            k = k + 1;
        }
        None
    }

    /// Checks that every required field is set, then assembles the record.
    /// The builder is only read, so a second call gives the same outcome.
    pub fn build(&self, plan: &BuilderPlan) -> (r: Result<Vec<FieldValue>, MissingField>)
        requires
            self@.len() == plan.fields@.len(),
        ensures
            match r {
                Ok(rec) => build_result(plan.fields@, self@) == Ok::<
                    Seq<FieldOut>,
                    Seq<char>,
                >(outs(rec@)),
                Err(e) => build_result(plan.fields@, self@) == Err::<Seq<FieldOut>, Seq<char>>(
                    e.field@,
                ),
            },
    {
        let fields = &plan.fields;
        if let Some(k) = self.find_missing(fields) {
            let ghost c = first_missing(fields@, self@);
            assert(c == k) by {
                assert(is_first_missing(fields@, self@, c));
                if c < k {
                    assert(!missing(fields@, self@, c));
                } else if c > k {
                    assert(!missing(fields@, self@, k as int));
                }
            }
            assert(!complete(fields@, self@));
            return Err(MissingField { field: fields[k].ident.clone() });
        }
        let ghost want = Seq::new(fields@.len(), |i: int| field_out(fields@[i], self@[i]));
        let mut rec: Vec<FieldValue> = Vec::new();
        let mut k: usize = 0;
        while k < fields.len()
            invariant
                k <= fields@.len(),
                self@.len() == fields@.len(),
                complete(fields@, self@),
                want == Seq::new(fields@.len(), |i: int| field_out(fields@[i], self@[i])),
                outs(rec@) =~= want.subrange(0, k as int),
            decreases fields@.len() - k,
        {
            let v = if fields[k].is_optional {
                FieldValue::Optional(copy_slot(&self.slots[k]))
            } else {
                assert(!missing(fields@, self@, k as int));
                match &self.slots[k] {
                    Some(v) => FieldValue::Required(v.copy()),
                    None => {
                        assert(false);
                        return Err(MissingField { field: fields[k].ident.clone() });
                    },
                }
            };
            assert(self@[k as int] == slot_view(self.slots@[k as int]));
            assert(v@ == want[k as int]);
            let ghost prev = rec@;
            rec.push(v);
            assert(outs(rec@) =~= outs(prev).push(v@));
            k = k + 1;
            assert(outs(rec@) =~= want.subrange(0, k as int));
        }
        assert(want.subrange(0, k as int) =~= want);
        Ok(rec)
    }
}

} // verus!
