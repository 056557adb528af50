//! The builder a schema is gathered in before its graph is made: the enums
//! by name, the models in the order they were added, and whether the
//! database is to be reset.

use vstd::prelude::*;
use crate::field_type::{EnumDefinition, EnumModel};

verus! {

/// A model under construction.
#[derive(Debug)]
pub struct ModelBuilder {
    pub name: String,
}

impl ModelBuilder {
    /// The model of that name, with nothing added yet.
    pub fn new(name: String) -> (builder: ModelBuilder)
        ensures
            builder.name == name,
    {
        ModelBuilder { name }
    }
}

/// The builder of a graph. The enums are held one to a name.
#[derive(Debug)]
pub struct GraphBuilder {
    pub enums: Vec<EnumDefinition>,
    pub model_builders: Vec<ModelBuilder>,
    pub reset_database: bool,
}

/// What a sequence of enum definitions is.
pub open spec fn enums_model(enums: Seq<EnumDefinition>) -> Seq<EnumModel> {
    Seq::new(enums.len(), |i: int| enums[i]@)
}

/// No two definitions have one name.
pub open spec fn distinct_names(enums: Seq<EnumModel>) -> bool {
    forall|i: int, j: int|
        0 <= i < j < enums.len() ==> (#[trigger] enums[i]).name != (#[trigger] enums[j]).name
}

/// The definitions by their names; of two with one name the later one counts.
pub open spec fn enum_table(enums: Seq<EnumModel>) -> Map<Seq<char>, EnumModel>
    decreases enums.len(),
{
    if enums.len() == 0 {
        Map::empty()
    } else {
        enum_table(enums.drop_last()).insert(enums.last().name, enums.last())
    }
}

/// The names of the models, in the order the models were added.
pub open spec fn model_names(models: Seq<ModelBuilder>) -> Seq<Seq<char>> {
    Seq::new(models.len(), |i: int| models[i].name@)
}

/// What the table holds where no two definitions have one name: each
/// definition under its name, and nothing else.
proof fn lemma_enum_table(enums: Seq<EnumModel>)
    requires
        distinct_names(enums),
    ensures
        forall|i: int|
            0 <= i < enums.len() ==> enum_table(enums).contains_key((#[trigger] enums[i]).name)
                && enum_table(enums)[enums[i].name] == enums[i],
        forall|name: Seq<char>| #[trigger]
            enum_table(enums).contains_key(name) ==> exists|i: int|
                0 <= i < enums.len() && (#[trigger] enums[i]).name == name,
    decreases enums.len(),
{
    if enums.len() > 0 {
        let front = enums.drop_last();
        assert(distinct_names(front)) by {
            assert forall|i: int, j: int| 0 <= i < j < front.len() implies (#[trigger] front[i]).name
                != (#[trigger] front[j]).name by {
                assert(front[i] == enums[i]);
                assert(front[j] == enums[j]);
            }
        }
        lemma_enum_table(front);
        assert forall|i: int| 0 <= i < enums.len() implies enum_table(enums).contains_key(
            (#[trigger] enums[i]).name,
        ) && enum_table(enums)[enums[i].name] == enums[i] by {
            if i < front.len() {
                assert(front[i] == enums[i]);
                assert(enums[i].name != enums[enums.len() - 1].name);
            }
        }
        assert forall|name: Seq<char>| #[trigger]
            enum_table(enums).contains_key(name) implies exists|i: int|
            0 <= i < enums.len() && (#[trigger] enums[i]).name == name by {
            if name == enums.last().name {
                assert(enums[enums.len() - 1].name == name);
            } else {
                let i = choose|i: int| 0 <= i < front.len() && (#[trigger] front[i]).name == name;
                assert(enums[i] == front[i]);
            }
        }
    }
}

impl GraphBuilder {
    /// Whether the enums are held one to a name.
    pub open spec fn well_formed(&self) -> bool {
        distinct_names(enums_model(self.enums@))
    }

    /// The enums by their names.
    pub open spec fn enums_by_name(&self) -> Map<Seq<char>, EnumModel> {
        enum_table(enums_model(self.enums@))
    }

    /// The builder with no enum, no model and no reset asked for.
    pub fn new() -> (builder: GraphBuilder)
        ensures
            builder.well_formed(),
            builder.enums_by_name() == Map::<Seq<char>, EnumModel>::empty(),
            builder.model_builders@.len() == 0,
            !builder.reset_database,
    {
        GraphBuilder { enums: Vec::new(), model_builders: Vec::new(), reset_database: false }
    }

    /// Adds an enum under its name, in place of the one that had the name
    /// before if there was one. Nothing else changes.
    pub fn enumeration(&mut self, enum_def: EnumDefinition)
        ensures
            old(self).well_formed() ==> final(self).well_formed(),
            old(self).well_formed() ==> final(self).enums_by_name() == old(
                self,
            ).enums_by_name().insert(enum_def@.name, enum_def@),
            final(self).model_builders == old(self).model_builders,
            final(self).reset_database == old(self).reset_database,
    {
        let ghost before = enums_model(self.enums@);
        let ghost added = enum_def@;
        let mut i: usize = 0;
        while i < self.enums.len()
            invariant
                i <= self.enums.len(),
                self.enums == old(self).enums,
                self.model_builders == old(self).model_builders,
                self.reset_database == old(self).reset_database,
                before == enums_model(self.enums@),
                added == enum_def@,
                forall|k: int| 0 <= k < i ==> (#[trigger] before[k]).name != added.name,
            decreases self.enums.len() - i,
        {
            if self.enums[i].name == enum_def.name {
                self.enums.set(i, enum_def);
                proof {
                    let after = enums_model(self.enums@);
                    assert(after =~= before.update(i as int, added));
                    if distinct_names(before) {
                        assert(distinct_names(after)) by {
                            assert forall|a: int, b: int| 0 <= a < b < after.len() implies (
                            #[trigger] after[a]).name != (#[trigger] after[b]).name by {
                                assert(before[a].name != before[b].name);
                                assert(before[i as int].name == added.name);
                            }
                        }
                        lemma_enum_table(before);
                        lemma_enum_table(after);
                        let expected = enum_table(before).insert(added.name, added);
                        assert(after[i as int] == added);
                        assert forall|name: Seq<char>| #[trigger]
                            enum_table(after).contains_key(name) == expected.contains_key(
                                name,
                            ) by {
                            if enum_table(after).contains_key(name) {
                                let k = choose|k: int|
                                    0 <= k < after.len() && (#[trigger] after[k]).name == name;
                                assert(before[k].name == name);
                            }
                            if expected.contains_key(name) && name != added.name {
                                let k = choose|k: int|
                                    0 <= k < before.len() && (#[trigger] before[k]).name == name;
                                assert(after[k] == before[k]);
                            }
                        }
                        assert forall|name: Seq<char>| #[trigger]
                            enum_table(after).contains_key(name) implies enum_table(after)[name]
                            == expected[name] by {
                            let k = choose|k: int|
                                0 <= k < after.len() && (#[trigger] after[k]).name == name;
                            if k != i {
                                assert(after[k] == before[k]);
                                assert(before[k].name != before[i as int].name);
                            }
                        }
                        assert(enum_table(after) =~= expected);
                    }
                }
                return;
            }
            i += 1;
        }
        self.enums.push(enum_def);
        proof {
            let after = enums_model(self.enums@);
            assert(after =~= before.push(added));
            assert(after.drop_last() =~= before);
            if distinct_names(before) {
                assert forall|a: int, b: int| 0 <= a < b < after.len() implies (#[trigger] after[a]).name
                    != (#[trigger] after[b]).name by {
                    if b < before.len() {
                        assert(before[a].name != before[b].name);
                    }
                }
            }
        }
    }

    /// Adds a model after the ones that are there. Nothing else changes.
    pub fn model(&mut self, model: ModelBuilder)
        ensures
            final(self).model_builders@ == old(self).model_builders@.push(model),
            final(self).enums == old(self).enums,
            final(self).reset_database == old(self).reset_database,
    {
        self.model_builders.push(model);
    }

    /// Asks for the database to be reset. Nothing else changes.
    pub fn reset_database(&mut self)
        ensures
            final(self).reset_database,
            final(self).enums == old(self).enums,
            final(self).model_builders == old(self).model_builders,
    {
        self.reset_database = true;
    }

    /// A copy of the enums that were added.
    pub fn clone_enums(&self) -> (enums: Vec<EnumDefinition>)
        ensures
            enums_model(enums@) == enums_model(self.enums@),
    {
        let mut enums: Vec<EnumDefinition> = Vec::new();
        let mut i: usize = 0;
        while i < self.enums.len()
            invariant
                i <= self.enums.len(),
                enums@.len() == i,
                forall|j: int| 0 <= j < i ==> enums@[j]@ == self.enums@[j]@,
            decreases self.enums.len() - i,
        {
            enums.push(self.enums[i].clone());
            i += 1;
        }
        assert(enums_model(enums@) =~= enums_model(self.enums@));
        enums
    }
}

} // verus!
