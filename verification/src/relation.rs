//! Relations between models.
use vstd::prelude::*;
use crate::object::Object;
use crate::value::Value;

verus! {

/// Whether a relation must be there.
#[derive(Clone, Copy, Debug, PartialEq, Eq, Structural)]
pub enum Optionality {
    Optional,
    Required,
}

impl Optionality {
    /// Whether the relation may be absent.
    pub fn is_optional(&self) -> (r: bool)
        ensures
            r == (*self == Optionality::Optional),
    {
        match self {
            Optionality::Optional => true,
            Optionality::Required => false,
        }
    }

    /// Whether the relation must be there.
    pub fn is_required(&self) -> (r: bool)
        ensures
            r == (*self == Optionality::Required),
    {
        match self {
            Optionality::Optional => false,
            Optionality::Required => true,
        }
    }
}

/// What becomes of the records that refer to a record when it is deleted.
#[derive(Clone, Copy, Debug, PartialEq, Eq, Structural)]
pub enum DeleteRule {
    Default,
    Nullify,
    Cascade,
    Deny,
}

/// A relation of a model to another: the fields of the one refer to the
/// references of the other, pair by pair.
#[derive(Debug, Clone)]
pub struct Relation {
    name: String,
    localized_name: String,
    description: String,
    optionality: Optionality,
    model: String,
    through: Option<String>,
    is_vec: bool,
    fields: Vec<String>,
    references: Vec<String>,
    delete_rule: DeleteRule,
    has_foreign_key: bool,
}

/// The mathematical content of a [`Relation`].
pub struct RelationView {
    pub name: Seq<char>,
    pub localized_name: Seq<char>,
    pub description: Seq<char>,
    pub optionality: Optionality,
    pub model: Seq<char>,
    pub through: Option<Seq<char>>,
    pub is_vec: bool,
    pub fields: Seq<String>,
    pub references: Seq<String>,
    pub delete_rule: DeleteRule,
    pub has_foreign_key: bool,
}

impl View for Relation {
    type V = RelationView;

    closed spec fn view(&self) -> RelationView {
        RelationView {
            name: self.name@,
            localized_name: self.localized_name@,
            description: self.description@,
            optionality: self.optionality,
            model: self.model@,
            through: match self.through {
                Some(t) => Some(t@),
                None => None,
            },
            is_vec: self.is_vec,
            fields: self.fields@,
            references: self.references@,
            delete_rule: self.delete_rule,
            has_foreign_key: self.has_foreign_key,
        }
    }
}

impl Relation {
    /// The relation `name` to the model `model`: optional, to one record,
    /// without fields, references or foreign key, with the default delete rule.
    pub fn new(name: &str, model: &str) -> (r: Relation)
        ensures
            r@ == (RelationView {
                name: name@,
                localized_name: Seq::empty(),
                description: Seq::empty(),
                optionality: Optionality::Optional,
                model: model@,
                through: None,
                is_vec: false,
                fields: Seq::empty(),
                references: Seq::empty(),
                delete_rule: DeleteRule::Default,
                has_foreign_key: false,
            }),
    {
        let r = Relation {
            name: String::from_str(name),
            localized_name: String::new(),
            description: String::new(),
            optionality: Optionality::Optional,
            model: String::from_str(model),
            through: None,
            is_vec: false,
            fields: Vec::new(),
            references: Vec::new(),
            delete_rule: DeleteRule::Default,
            has_foreign_key: false,
        };
        assert(r.fields@ =~= Seq::empty() && r.references@ =~= Seq::empty());
        r
    }

    /// The relation with the pair of `field` and `reference` added.
    pub fn with_pair(self, field: &str, reference: &str) -> (r: Relation)
        ensures
            r@.fields.len() == self@.fields.len() + 1,
            r@.references.len() == self@.references.len() + 1,
            r@.fields.last()@ == field@,
            r@.references.last()@ == reference@,
            r@.fields.drop_last() == self@.fields,
            r@.references.drop_last() == self@.references,
            r@ == (RelationView { fields: r@.fields, references: r@.references, ..self@ }),
    {
        let mut r = self;
        r.fields.push(String::from_str(field));
        r.references.push(String::from_str(reference));
        assert(r.fields@.drop_last() =~= self.fields@);
        assert(r.references@.drop_last() =~= self.references@);
        r
    }

    /// The relation with `optionality` in place of its optionality.
    pub fn with_optionality(self, optionality: Optionality) -> (r: Relation)
        ensures
            r@ == (RelationView { optionality, ..self@ }),
    {
        Relation { optionality, ..self }
    }

    /// The relation with `delete_rule` in place of its delete rule.
    pub fn with_delete_rule(self, delete_rule: DeleteRule) -> (r: Relation)
        ensures
            r@ == (RelationView { delete_rule, ..self@ }),
    {
        Relation { delete_rule, ..self }
    }

    /// The relation to many records, or to one.
    pub fn with_vec(self, is_vec: bool) -> (r: Relation)
        ensures
            r@ == (RelationView { is_vec, ..self@ }),
    {
        Relation { is_vec, ..self }
    }

    /// The name of the relation.
    pub fn name(&self) -> (r: &str)
        ensures
            r@ == self@.name,
    {
        self.name.as_str()
    }

    /// The name of the relation as it is shown.
    pub fn localized_name(&self) -> (r: &str)
        ensures
            r@ == self@.localized_name,
    {
        self.localized_name.as_str()
    }

    /// What is said of the relation.
    pub fn description(&self) -> (r: &str)
        ensures
            r@ == self@.description,
    {
        self.description.as_str()
    }

    /// Whether the relation must be there.
    pub fn optionality(&self) -> (r: &Optionality)
        ensures
            *r == self@.optionality,
    {
        &self.optionality
    }

    /// Whether the relation may be absent.
    pub fn is_optional(&self) -> (r: bool)
        ensures
            r == (self@.optionality == Optionality::Optional),
    {
        self.optionality.is_optional()
    }

    /// Whether the relation must be there.
    pub fn is_required(&self) -> (r: bool)
        ensures
            r == (self@.optionality == Optionality::Required),
    {
        self.optionality.is_required()
    }

    /// The name of the model that the relation leads to.
    pub fn model(&self) -> (r: &str)
        ensures
            r@ == self@.model,
    {
        self.model.as_str()
    }

    /// The name of the model through which the relation goes, if it goes through one.
    pub fn through(&self) -> (r: Option<&str>)
        ensures
            r is Some == self@.through is Some,
            r matches Some(t) ==> self@.through == Some(t@),
    {
        match &self.through {
            Some(t) => Some(t.as_str()),
            None => None,
        }
    }

    /// Whether the relation leads to many records.
    pub fn is_vec(&self) -> (r: bool)
        ensures
            r == self@.is_vec,
    {
        self.is_vec
    }

    /// The fields of this model that refer to the other.
    pub fn fields(&self) -> (r: &Vec<String>)
        ensures
            r@ == self@.fields,
    {
        &self.fields
    }

    /// The fields of the other model that are referred to.
    pub fn references(&self) -> (r: &Vec<String>)
        ensures
            r@ == self@.references,
    {
        &self.references
    }

    /// The first field of the relation, where it has one.
    pub fn local(&self) -> (r: Option<&str>)
        ensures
            r is Some == (self@.fields.len() > 0),
            r matches Some(f) ==> f@ == self@.fields[0]@,
    {
        if self.fields.len() > 0 {
            Some(self.fields[0].as_str())
        } else {
            None
        }
    }

    /// The first reference of the relation, where it has one.
    pub fn foreign(&self) -> (r: Option<&str>)
        ensures
            r is Some == (self@.references.len() > 0),
            r matches Some(f) ==> f@ == self@.references[0]@,
    {
        if self.references.len() > 0 {
            Some(self.references[0].as_str())
        } else {
            None
        }
    }

    /// What becomes of the referring records on deletion.
    pub fn delete_rule(&self) -> (r: DeleteRule)
        ensures
            r == self@.delete_rule,
    {
        self.delete_rule
    }

    /// Whether this model holds the foreign key of the relation.
    pub fn has_foreign_key(&self) -> (r: bool)
        ensures
            r == self@.has_foreign_key,
    {
        self.has_foreign_key
    }
}

/// What the input asks to be done with the records of a relation.
#[derive(Debug)]
pub enum RelationManipulation {
    Create(Value),
    ConnectOrCreate(Value),
    Connect(Value),
    Replace(Value),
    Update(Value),
    Upsert(Value),
    Disconnect(Value),
    Delete(Value),
}

/// What is to be done between a record and one that it is related to.
pub enum RelationConnection<'a> {
    Link(Object<'a>),
    Unlink(Object<'a>),
    UnlinkAndDelete(Object<'a>),
}

} // verus!
