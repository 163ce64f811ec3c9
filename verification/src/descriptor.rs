use vstd::prelude::*;

verus! {

/// A callable function of a contract, as far as dispatch needs it: its name
/// and the selectors that prefix its input and its output.
#[derive(Clone, Debug, PartialEq, Eq)]
pub struct FunctionEntry {
    pub name: String,
    pub input_id: u32,
    pub output_id: u32,
}

/// An event that a contract emits: its name and its selector.
#[derive(Clone, Debug, PartialEq, Eq)]
pub struct EventEntry {
    pub name: String,
    pub id: u32,
}

/// The dispatch tables of a contract ABI: its functions and its events, each
/// in the order in which they are searched.
#[derive(Clone, Debug, PartialEq, Eq)]
pub struct AbiDescriptor {
    pub functions: Vec<FunctionEntry>,
    pub events: Vec<EventEntry>,
}

/// The parameter schema that a codec is asked to decode against. The indices
/// point into the tables of the descriptor in use.
#[derive(Clone, Copy, Debug, PartialEq, Eq, Structural)]
pub enum Schema {
    /// The output parameters of the function named by the responsible call.
    ResponsibleOutput,
    /// The output parameters of the function at this index.
    FunctionOutput(usize),
    /// The parameters of the event at this index.
    EventInput(usize),
    /// The input parameters of the function at this index.
    FunctionInput(usize),
}

/// The least index at which `id` stands in `ids`, if it stands there at all.
pub open spec fn first_index_of(ids: Seq<u32>, id: u32) -> Option<int>
    decreases ids.len(),
{
    if ids.len() == 0 {
        None
    } else if ids[0] == id {
        Some(0)
    } else {
        match first_index_of(ids.drop_first(), id) {
            Some(i) => Some(i + 1),
            None => None,
        }
    }
}

/// `first_index_of` finds an index exactly where `id` occurs, and then the
/// first occurrence.
pub proof fn first_index_of_is_least(ids: Seq<u32>, id: u32)
    ensures
        match first_index_of(ids, id) {
            Some(i) => 0 <= i < ids.len() && ids[i] == id && forall|j: int|
                0 <= j < i ==> ids[j] != id,
            None => forall|j: int| 0 <= j < ids.len() ==> ids[j] != id,
        },
    decreases ids.len(),
{
    if ids.len() > 0 && ids[0] != id {
        let rest = ids.drop_first();
        first_index_of_is_least(rest, id);
        match first_index_of(rest, id) {
            Some(i) => {
                assert forall|j: int| 0 <= j < i + 1 implies ids[j] != id by {
                    if j > 0 {
                        assert(ids[j] == rest[j - 1]);
                    }
                }
            },
            None => {
                assert forall|j: int| 0 <= j < ids.len() implies ids[j] != id by {
                    if j > 0 {
                        assert(ids[j] == rest[j - 1]);
                    }
                }
            },
        }
    }
}

/// An index that holds `id` with no occurrence before it is the one that
/// `first_index_of` finds.
pub proof fn first_index_of_found(ids: Seq<u32>, id: u32, i: int)
    requires
        0 <= i < ids.len(),
        ids[i] == id,
        forall|j: int| 0 <= j < i ==> ids[j] != id,
    ensures
        first_index_of(ids, id) == Some(i),
{
    first_index_of_is_least(ids, id);
}

/// Where `id` occurs nowhere, `first_index_of` finds nothing.
pub proof fn first_index_of_absent(ids: Seq<u32>, id: u32)
    requires
        forall|j: int| 0 <= j < ids.len() ==> ids[j] != id,
    ensures
        first_index_of(ids, id) is None,
{
    first_index_of_is_least(ids, id);
}

/// No selector stands twice in `ids`.
pub open spec fn distinct(ids: Seq<u32>) -> bool {
    forall|i: int, j: int| 0 <= i < j < ids.len() ==> ids[i] != ids[j]
}

/// Among distinct selectors each is found at its own index.
pub proof fn distinct_found_in_place(ids: Seq<u32>, i: int)
    requires
        distinct(ids),
        0 <= i < ids.len(),
    ensures
        first_index_of(ids, ids[i]) == Some(i),
{
    first_index_of_is_least(ids, ids[i]);
}

/// Whether no selector stands twice in `ids`.
pub fn all_distinct(ids: &Vec<u32>) -> (res: bool)
    ensures
        res == distinct(ids@),
{
    let mut j: usize = 0;
    while j < ids.len()
        invariant
            j <= ids@.len(),
            forall|a: int, b: int| 0 <= a < b < j ==> ids@[a] != ids@[b],
        decreases ids@.len() - j,
    {
        let mut i: usize = 0;
        while i < j
            invariant
                i <= j < ids@.len(),
                forall|a: int| 0 <= a < i ==> ids@[a] != ids@[j as int],
            decreases j - i,
        {
            if ids[i] == ids[j] {
                return false;
            }
            i = i + 1;
        }
        j = j + 1;
    }
    true
}

impl AbiDescriptor {
    /// The selectors are unique within their own table: no two functions
    /// share an input selector, no two share an output selector, and no two
    /// events share a selector.
    pub open spec fn well_formed(self) -> bool {
        &&& distinct(self.input_ids())
        &&& distinct(self.output_ids())
        &&& distinct(self.event_ids())
    }

    /// The output selectors of the functions, in table order.
    pub open spec fn output_ids(self) -> Seq<u32> {
        Seq::new(self.functions@.len(), |i: int| self.functions@[i].output_id)
    }

    /// The input selectors of the functions, in table order.
    pub open spec fn input_ids(self) -> Seq<u32> {
        Seq::new(self.functions@.len(), |i: int| self.functions@[i].input_id)
    }

    /// The selectors of the events, in table order.
    pub open spec fn event_ids(self) -> Seq<u32> {
        Seq::new(self.events@.len(), |i: int| self.events@[i].id)
    }

    /// Whether the event table holds an event of this name.
    pub open spec fn has_event_named(self, name: Seq<char>) -> bool {
        exists|j: int| 0 <= j < self.events@.len() && (#[trigger] self.events@[j]).name@ == name
    }

    /// The schema that a body with leading selector `id` is decoded against
    /// when it is tried as an output: the output of the first function with
    /// that output selector, else the first event with that selector.
    pub open spec fn output_schema(self, id: u32) -> Option<Schema> {
        match first_index_of(self.output_ids(), id) {
            Some(i) => Some(Schema::FunctionOutput(i as usize)),
            None => match first_index_of(self.event_ids(), id) {
                Some(j) => Some(Schema::EventInput(j as usize)),
                None => None,
            },
        }
    }

    /// The schema that a body whose selector `id` follows the header is
    /// decoded against when it is tried as an input: the input of the first
    /// function with that input selector.
    pub open spec fn input_schema(self, id: u32) -> Option<Schema> {
        match first_index_of(self.input_ids(), id) {
            Some(i) => Some(Schema::FunctionInput(i as usize)),
            None => None,
        }
    }

    /// Whether `schema` points at an entry of this descriptor.
    pub open spec fn holds(self, schema: Schema) -> bool {
        match schema {
            Schema::ResponsibleOutput => false,
            Schema::FunctionOutput(i) => i < self.functions@.len(),
            Schema::EventInput(j) => j < self.events@.len(),
            Schema::FunctionInput(i) => i < self.functions@.len(),
        }
    }

    /// The name of the function or event that `schema` points at.
    pub open spec fn name_of(self, schema: Schema) -> String
        recommends
            self.holds(schema),
    {
        match schema {
            Schema::ResponsibleOutput => arbitrary(),
            Schema::FunctionOutput(i) => self.functions@[i as int].name,
            Schema::EventInput(j) => self.events@[j as int].name,
            Schema::FunctionInput(i) => self.functions@[i as int].name,
        }
    }

    /// Finds the first function whose output selector is `id`.
    pub fn function_by_output_id(&self, id: u32) -> (res: Option<usize>)
        ensures
            res matches Some(found) ==> found < self.functions@.len() && self.functions@[found as int].output_id
                == id,
            res matches Some(found) ==> forall|k: int|
                0 <= k < found ==> (#[trigger] self.functions@[k]).output_id != id,
            res is None ==> forall|k: int|
                0 <= k < self.functions@.len() ==> (#[trigger] self.functions@[k]).output_id != id,
            match res {
                Some(found) => first_index_of(self.output_ids(), id) == Some(found as int),
                None => first_index_of(self.output_ids(), id) is None,
            },
    {
        let mut i: usize = 0;
        while i < self.functions.len()
            invariant
                i <= self.functions@.len(),
                forall|k: int| 0 <= k < i ==> (#[trigger] self.functions@[k]).output_id != id,
            decreases self.functions@.len() - i,
        {
            if self.functions[i].output_id == id {
                proof {
                    first_index_of_found(self.output_ids(), id, i as int);
                }
                return Some(i);
            }
            i = i + 1;
        }
        proof {
            first_index_of_absent(self.output_ids(), id);
        }
        None
    }

    /// Finds the first function whose input selector is `id`.
    pub fn function_by_input_id(&self, id: u32) -> (res: Option<usize>)
        ensures
            res matches Some(found) ==> found < self.functions@.len() && self.functions@[found as int].input_id
                == id,
            res matches Some(found) ==> forall|k: int|
                0 <= k < found ==> (#[trigger] self.functions@[k]).input_id != id,
            res is None ==> forall|k: int|
                0 <= k < self.functions@.len() ==> (#[trigger] self.functions@[k]).input_id != id,
            match res {
                Some(found) => first_index_of(self.input_ids(), id) == Some(found as int),
                None => first_index_of(self.input_ids(), id) is None,
            },
    {
        let mut i: usize = 0;
        while i < self.functions.len()
            invariant
                i <= self.functions@.len(),
                forall|k: int| 0 <= k < i ==> (#[trigger] self.functions@[k]).input_id != id,
            decreases self.functions@.len() - i,
        {
            if self.functions[i].input_id == id {
                proof {
                    first_index_of_found(self.input_ids(), id, i as int);
                }
                return Some(i);
            }
            i = i + 1;
        }
        proof {
            first_index_of_absent(self.input_ids(), id);
        }
        None
    }

    /// Finds the first event whose selector is `id`.
    pub fn event_by_id(&self, id: u32) -> (res: Option<usize>)
        ensures
            res matches Some(found) ==> found < self.events@.len() && self.events@[found as int].id
                == id,
            res matches Some(found) ==> forall|k: int|
                0 <= k < found ==> (#[trigger] self.events@[k]).id != id,
            res is None ==> forall|k: int|
                0 <= k < self.events@.len() ==> (#[trigger] self.events@[k]).id != id,
            match res {
                Some(found) => first_index_of(self.event_ids(), id) == Some(found as int),
                None => first_index_of(self.event_ids(), id) is None,
            },
    {
        let mut j: usize = 0;
        while j < self.events.len()
            invariant
                j <= self.events@.len(),
                forall|k: int| 0 <= k < j ==> (#[trigger] self.events@[k]).id != id,
            decreases self.events@.len() - j,
        {
            if self.events[j].id == id {
                proof {
                    first_index_of_found(self.event_ids(), id, j as int);
                }
                return Some(j);
            }
            j = j + 1;
        }
        proof {
            first_index_of_absent(self.event_ids(), id);
        }
        None
    }

    /// Whether the event table holds an event called `name`.
    pub fn has_event(&self, name: &String) -> (res: bool)
        ensures
            res == self.has_event_named(name@),
    {
        let mut j: usize = 0;
        while j < self.events.len()
            invariant
                j <= self.events@.len(),
                forall|k: int| 0 <= k < j ==> (#[trigger] self.events@[k]).name@ != name@,
            decreases self.events@.len() - j,
        {
            if self.events[j].name == *name {
                return true;
            }
            j = j + 1;
        }
        false
    }

    /// Whether the selectors are unique within their own table.
    pub fn has_distinct_selectors(&self) -> (res: bool)
        ensures
            res == self.well_formed(),
    {
        let mut inputs: Vec<u32> = Vec::new();
        let mut outputs: Vec<u32> = Vec::new();
        let mut i: usize = 0;
        while i < self.functions.len()
            invariant
                i <= self.functions@.len(),
                inputs@ == self.input_ids().take(i as int),
                outputs@ == self.output_ids().take(i as int),
            decreases self.functions@.len() - i,
        {
            inputs.push(self.functions[i].input_id);
            outputs.push(self.functions[i].output_id);
            i = i + 1;
            assert(inputs@ =~= self.input_ids().take(i as int));
            assert(outputs@ =~= self.output_ids().take(i as int));
        }
        let mut events: Vec<u32> = Vec::new();
        let mut j: usize = 0;
        while j < self.events.len()
            invariant
                j <= self.events@.len(),
                events@ == self.event_ids().take(j as int),
            decreases self.events@.len() - j,
        {
            events.push(self.events[j].id);
            j = j + 1;
            assert(events@ =~= self.event_ids().take(j as int));
        }
        assert(inputs@ =~= self.input_ids());
        assert(outputs@ =~= self.output_ids());
        assert(events@ =~= self.event_ids());
        all_distinct(&inputs) && all_distinct(&outputs) && all_distinct(&events)
    }

    /// The name of the function or event that `schema` points at.
    pub fn entry_name(&self, schema: Schema) -> (name: String)
        requires
            self.holds(schema),
        ensures
            name == self.name_of(schema),
    {
        match schema {
            Schema::ResponsibleOutput => String::new(),
            Schema::FunctionOutput(i) => self.functions[i].name.clone(),
            Schema::EventInput(j) => self.events[j].name.clone(),
            Schema::FunctionInput(i) => self.functions[i].name.clone(),
        }
    }

    /// Picks the schema for the output trial of a body that starts with `id`.
    pub fn find_output_schema(&self, id: u32) -> (res: Option<Schema>)
        ensures
            res == self.output_schema(id),
            res matches Some(schema) ==> self.holds(schema),
    {
        proof {
            first_index_of_is_least(self.output_ids(), id);
            first_index_of_is_least(self.event_ids(), id);
        }
        match self.function_by_output_id(id) {
            Some(i) => Some(Schema::FunctionOutput(i)),
            None => match self.event_by_id(id) {
                Some(j) => Some(Schema::EventInput(j)),
                None => None,
            },
        }
    }

    /// Picks the schema for the input trial of a body whose selector is `id`.
    pub fn find_input_schema(&self, id: u32) -> (res: Option<Schema>)
        ensures
            res == self.input_schema(id),
            res matches Some(schema) ==> self.holds(schema),
    {
        proof {
            first_index_of_is_least(self.input_ids(), id);
        }
        match self.function_by_input_id(id) {
            Some(i) => Some(Schema::FunctionInput(i)),
            None => None,
        }
    }
}

} // verus!
