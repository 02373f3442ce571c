//! The bounded-parameter configuration registry: named numeric values,
//! each with optional minimum and maximum bounds that every accepted write
//! must satisfy.
//!
//! Values and bounds are held in thousandths, so the registry is exact
//! integer arithmetic throughout.

use vstd::prelude::*;
use crate::errors::{SessionError, ViolatedBound};

verus! {

/// One named, bounded configuration value. All numeric fields are in
/// thousandths of the vehicle-facing unit.
#[derive(Debug)]
pub struct Parameter {
    /// Unique key of this parameter.
    pub id: String,
    /// Current value, in thousandths.
    pub value: i64,
    /// Tag describing the wire representation width.
    pub param_type: String,
    pub description: Option<String>,
    /// Lower bound on `value`, in thousandths, if any.
    pub min_value: Option<i64>,
    /// Upper bound on `value`, in thousandths, if any.
    pub max_value: Option<i64>,
    pub units: Option<String>,
}

/// The mathematical value of a [`Parameter`].
#[verifier::ext_equal]
pub struct ParamModel {
    pub id: Seq<char>,
    pub value: i64,
    pub param_type: Seq<char>,
    pub description: Option<Seq<char>>,
    pub min_value: Option<i64>,
    pub max_value: Option<i64>,
    pub units: Option<Seq<char>>,
}

impl View for Parameter {
    type V = ParamModel;

    open spec fn view(&self) -> ParamModel {
        ParamModel {
            id: self.id@,
            value: self.value,
            param_type: self.param_type@,
            description: match self.description {
                Some(d) => Some(d@),
                None => None,
            },
            min_value: self.min_value,
            max_value: self.max_value,
            units: match self.units {
                Some(u) => Some(u@),
                None => None,
            },
        }
    }
}

impl Clone for Parameter {
    /// An exact copy of the parameter.
    fn clone(&self) -> (r: Self)
        ensures
            r@ == self@,
    {
        let r = Parameter {
            id: self.id.clone(),
            value: self.value,
            param_type: self.param_type.clone(),
            description: match &self.description {
                Some(d) => Some(d.clone()),
                None => None,
            },
            min_value: self.min_value,
            max_value: self.max_value,
            units: match &self.units {
                Some(u) => Some(u.clone()),
                None => None,
            },
        };
        proof {
            assert(r@ =~= self@);
        }
        r
    }
}

/// A parameter is well formed when its bounds are ordered and its current
/// value satisfies them.
pub open spec fn param_wf(p: ParamModel) -> bool {
    &&& p.min_value is Some && p.max_value is Some ==> p.min_value->0 <= p.max_value->0
    &&& p.min_value is Some ==> p.min_value->0 <= p.value
    &&& p.max_value is Some ==> p.value <= p.max_value->0
}

/// A registry is well formed when every entry is well formed and keys are
/// unique.
pub open spec fn params_wf(ps: Seq<ParamModel>) -> bool {
    &&& forall|i: int| 0 <= i < ps.len() ==> param_wf(#[trigger] ps[i])
    &&& forall|i: int, j: int| 0 <= i < j < ps.len() ==> ps[i].id != ps[j].id
}

/// The index of the first entry keyed `id`, or -1 when none is.
pub open spec fn find_param(ps: Seq<ParamModel>, id: Seq<char>) -> int
    decreases ps.len(),
{
    if ps.len() == 0 {
        -1
    } else if ps[0].id == id {
        0
    } else {
        let tail = find_param(ps.drop_first(), id);
        if tail == -1 {
            -1
        } else {
            tail + 1
        }
    }
}

/// `find_param` returns -1 exactly when no entry is keyed `id`; otherwise
/// it returns the first index keyed `id`.
pub proof fn lemma_find_param(ps: Seq<ParamModel>, id: Seq<char>)
    ensures
        find_param(ps, id) == -1 ==> forall|j: int| 0 <= j < ps.len() ==> ps[j].id != id,
        find_param(ps, id) != -1 ==> {
            let f = find_param(ps, id);
            &&& 0 <= f < ps.len()
            &&& ps[f].id == id
            &&& forall|j: int| 0 <= j < f ==> ps[j].id != id
        },
    decreases ps.len(),
{
    if ps.len() > 0 && ps[0].id != id {
        lemma_find_param(ps.drop_first(), id);
        let tail = find_param(ps.drop_first(), id);
        if tail == -1 {
            assert forall|j: int| 0 <= j < ps.len() implies ps[j].id != id by {
                if j > 0 {
                    assert(ps.drop_first()[j - 1] == ps[j]);
                }
            }
        } else {
            assert(ps.drop_first()[tail] == ps[tail + 1]);
            assert forall|j: int| 0 <= j < tail + 1 implies ps[j].id != id by {
                if j > 0 {
                    assert(ps.drop_first()[j - 1] == ps[j]);
                }
            }
        }
    }
}

/// What a write of `value` to the entry keyed `id` does: the registry it
/// leaves behind, and the outcome handed to the caller. A write is
/// accepted exactly when the entry exists and `value` lies within its
/// bounds; a rejected write leaves the registry unchanged and reports the
/// violated bound.
pub open spec fn spec_set_param(ps: Seq<ParamModel>, id: Seq<char>, value: i64) -> (Seq<
    ParamModel,
>, Result<(), SessionError>) {
    let f = find_param(ps, id);
    if f == -1 {
        (ps, Err(SessionError::ParameterNotFound))
    } else {
        let p = ps[f];
        if p.min_value is Some && value < p.min_value->0 {
            (ps, Err(SessionError::OutOfRange(ViolatedBound::Minimum(p.min_value->0))))
        } else if p.max_value is Some && value > p.max_value->0 {
            (ps, Err(SessionError::OutOfRange(ViolatedBound::Maximum(p.max_value->0))))
        } else {
            (ps.update(f, ParamModel { value, ..p }), Ok(()))
        }
    }
}

/// The registry of configuration parameters, keyed by `Parameter::id`.
pub struct ParameterRegistry {
    pub entries: Vec<Parameter>,
}

/// The models of a sequence of parameters, element by element.
pub open spec fn views_of(s: Seq<Parameter>) -> Seq<ParamModel> {
    s.map_values(|p: Parameter| p@)
}

impl View for ParameterRegistry {
    type V = Seq<ParamModel>;

    open spec fn view(&self) -> Seq<ParamModel> {
        views_of(self.entries@)
    }
}

impl ParameterRegistry {
    /// An empty registry.
    pub fn new() -> (r: Self)
        ensures
            r@ =~= Seq::<ParamModel>::empty(),
    {
        ParameterRegistry { entries: Vec::new() }
    }

    /// How many parameters the registry holds.
    pub fn len(&self) -> (r: usize)
        ensures
            r == self@.len(),
    {
        self.entries.len()
    }

    /// Removes every parameter.
    pub fn clear(&mut self)
        ensures
            final(self)@ =~= Seq::<ParamModel>::empty(),
    {
        self.entries.clear();
    }

    /// The index of the first entry keyed `id`, if any.
    fn find(&self, id: &String) -> (r: Option<usize>)
        ensures
            ({
                let f = find_param(self@, id@);
                match r {
                    Some(i) => f == i && i < self@.len(),
                    None => f == -1,
                }
            }),
    {
        proof {
            lemma_find_param(self@, id@);
        }
        let mut i: usize = 0;
        while i < self.entries.len()
            invariant
                0 <= i <= self.entries.len(),
                self@.len() == self.entries@.len(),
                forall|j: int| 0 <= j < i ==> self@[j].id != id@,
                find_param(self@, id@) == -1 ==> forall|j: int|
                    0 <= j < self@.len() ==> self@[j].id != id@,
                find_param(self@, id@) != -1 ==> {
                    let f = find_param(self@, id@);
                    &&& 0 <= f < self@.len()
                    &&& self@[f].id == id@
                    &&& forall|j: int| 0 <= j < f ==> self@[j].id != id@
                },
            decreases self.entries.len() - i,
        {
            proof {
                assert(self@[i as int] == self.entries@[i as int]@);
            }
            if self.entries[i].id.eq(id) {
                return Some(i);
            }
            i = i + 1;
        }
        None
    }

    /// A copy of the entry keyed `id`, if any.
    pub fn get(&self, id: &String) -> (r: Option<Parameter>)
        ensures
            ({
                let f = find_param(self@, id@);
                match r {
                    Some(p) => f != -1 && p@ == self@[f],
                    None => f == -1,
                }
            }),
    {
        match self.find(id) {
            Some(i) => Some(self.entries[i].clone()),
            None => None,
        }
    }

    /// Adds a parameter; the caller is responsible for key uniqueness.
    pub fn push(&mut self, p: Parameter)
        ensures
            final(self)@ =~= old(self)@.push(p@),
    {
        self.entries.push(p);
    }

    /// Writes `value` to the entry keyed `id`, validating it against the
    /// entry's bounds; check and commit are one step, so no other write
    /// can interleave.
    pub fn set(&mut self, id: &String, value: i64) -> (r: Result<(), SessionError>)
        ensures
            (final(self)@, r) == spec_set_param(old(self)@, id@, value),
    {
        match self.find(id) {
            None => Err(SessionError::ParameterNotFound),
            Some(i) => {
                if let Some(min) = self.entries[i].min_value {
                    if value < min {
                        return Err(SessionError::OutOfRange(ViolatedBound::Minimum(min)));
                    }
                }
                if let Some(max) = self.entries[i].max_value {
                    if value > max {
                        return Err(SessionError::OutOfRange(ViolatedBound::Maximum(max)));
                    }
                }
                self.entries[i].value = value;
                proof {
                    assert(final(self)@ =~= spec_set_param(old(self)@, id@, value).0);
                }
                Ok(())
            },
        }
    }

    /// A snapshot copy of every parameter, in registry order.
    pub fn list(&self) -> (r: Vec<Parameter>)
        ensures
            views_of(r@) =~= self@,
    {
        let mut r: Vec<Parameter> = Vec::new();
        let mut i: usize = 0;
        while i < self.entries.len()
            invariant
                0 <= i <= self.entries.len(),
                views_of(r@) =~= self@.take(i as int),
            decreases self.entries.len() - i,
        {
            let p = self.entries[i].clone();
            proof {
                assert(p@ == self.entries@[i as int]@);
                assert(self@[i as int] == self.entries@[i as int]@);
            }
            let ghost prev = r@;
            r.push(p);
            proof {
                assert(views_of(prev).len() == prev.len());
                assert(prev.len() == i);
                assert(r@ == prev.push(p));
                assert forall|k: int| 0 <= k < r@.len() implies views_of(r@)[k] == self@.take(
                    i + 1,
                )[k] by {
                    assert(views_of(r@)[k] == r@[k]@);
                    if k < i {
                        assert(r@[k] == prev[k]);
                        assert(views_of(prev)[k] == prev[k]@);
                    }
                }
                assert(views_of(r@) =~= self@.take(i + 1));
            }
            i = i + 1;
        }
        proof {
            assert(self@.take(self@.len() as int) =~= self@);
        }
        r
    }
}

/// The default parameter set recorded on connect. Values and bounds are
/// in thousandths: `ARMING_CHECK` is 1.0 with bounds [0.0, 65535.0],
/// `THR_MIN` is 130.0 PWM with bounds [0.0, 1000.0], `ANGLE_MAX` is
/// 4500.0 centidegrees with bounds [1000.0, 8000.0], and `BATT_CAPACITY`
/// is 5000.0 mAh with bounds [0.0, 50000.0].
pub open spec fn default_params() -> Seq<ParamModel> {
    seq![
        ParamModel {
            id: "ARMING_CHECK"@,
            value: 1000,
            param_type: "INT32"@,
            description: Some("Arming check bitmask"@),
            min_value: Some(0),
            max_value: Some(65_535_000),
            units: None,
        },
        ParamModel {
            id: "THR_MIN"@,
            value: 130_000,
            param_type: "INT16"@,
            description: Some("Minimum throttle PWM"@),
            min_value: Some(0),
            max_value: Some(1_000_000),
            units: Some("PWM"@),
        },
        ParamModel {
            id: "ANGLE_MAX"@,
            value: 4_500_000,
            param_type: "INT16"@,
            description: Some("Maximum lean angle"@),
            min_value: Some(1_000_000),
            max_value: Some(8_000_000),
            units: Some("centidegrees"@),
        },
        ParamModel {
            id: "BATT_CAPACITY"@,
            value: 5_000_000,
            param_type: "INT32"@,
            description: Some("Battery capacity"@),
            min_value: Some(0),
            max_value: Some(50_000_000),
            units: Some("mAh"@),
        },
    ]
}

/// The default set is well formed: its keys are distinct and every value
/// lies within its bounds.
pub proof fn lemma_default_params_wf()
    ensures
        params_wf(default_params()),
{
    reveal_strlit("ARMING_CHECK");
    reveal_strlit("THR_MIN");
    reveal_strlit("ANGLE_MAX");
    reveal_strlit("BATT_CAPACITY");
    assert(("ARMING_CHECK"@).len() == 12);
    assert(("THR_MIN"@).len() == 7);
    assert(("ANGLE_MAX"@).len() == 9);
    assert(("BATT_CAPACITY"@).len() == 13);
}

impl ParameterRegistry {
    /// Resets the registry to the default parameter set.
    pub fn load_default_parameters(&mut self)
        ensures
            final(self)@ =~= default_params(),
    {
        self.entries.clear();
        let p0 = Parameter {
            id: "ARMING_CHECK".to_owned(),
            value: 1000,
            param_type: "INT32".to_owned(),
            description: Some("Arming check bitmask".to_owned()),
            min_value: Some(0),
            max_value: Some(65_535_000),
            units: None,
        };
        proof {
            assert(p0@ =~= default_params()[0]);
        }
        self.entries.push(p0);
        let p1 = Parameter {
            id: "THR_MIN".to_owned(),
            value: 130_000,
            param_type: "INT16".to_owned(),
            description: Some("Minimum throttle PWM".to_owned()),
            min_value: Some(0),
            max_value: Some(1_000_000),
            units: Some("PWM".to_owned()),
        };
        proof {
            assert(p1@ =~= default_params()[1]);
        }
        self.entries.push(p1);
        let p2 = Parameter {
            id: "ANGLE_MAX".to_owned(),
            value: 4_500_000,
            param_type: "INT16".to_owned(),
            description: Some("Maximum lean angle".to_owned()),
            min_value: Some(1_000_000),
            max_value: Some(8_000_000),
            units: Some("centidegrees".to_owned()),
        };
        proof {
            assert(p2@ =~= default_params()[2]);
        }
        self.entries.push(p2);
        let p3 = Parameter {
            id: "BATT_CAPACITY".to_owned(),
            value: 5_000_000,
            param_type: "INT32".to_owned(),
            description: Some("Battery capacity".to_owned()),
            min_value: Some(0),
            max_value: Some(50_000_000),
            units: Some("mAh".to_owned()),
        };
        proof {
            assert(p3@ =~= default_params()[3]);
        }
        self.entries.push(p3);
        proof {
            assert(self@ =~= default_params());
        }
    }
}

/// A write preserves well-formedness: bounds are unchanged and an
/// accepted value satisfies them.
pub proof fn lemma_set_param_preserves_wf(ps: Seq<ParamModel>, id: Seq<char>, value: i64)
    requires
        params_wf(ps),
    ensures
        params_wf(spec_set_param(ps, id, value).0),
{
    lemma_find_param(ps, id);
    let (ps2, r) = spec_set_param(ps, id, value);
    assert forall|i: int| 0 <= i < ps2.len() implies param_wf(#[trigger] ps2[i]) by {
        assert(param_wf(ps[i]));
    }
    assert forall|i: int, j: int| 0 <= i < j < ps2.len() implies ps2[i].id != ps2[j].id by {
        assert(ps[i].id != ps[j].id);
    }
}

} // verus!
