//! Result vectors as they come back from the engine, and the model behind
//! the plot view that shows them over time.
//!
//! Samples are carried, never computed with, so every type here is generic
//! in the sample type.

use vstd::prelude::*;
use crate::error::EngineError;

verus! {

/// How many colours the plot view has for its vectors: no more vectors than
/// this are shown at once.
pub const PALETTE_SIZE: usize = 7;

/// The samples of one vector: real, or complex as pairs of real and
/// imaginary part.
#[derive(Debug, Clone, PartialEq)]
pub enum VectorData<T> {
    Real(Vec<T>),
    Complex(Vec<(T, T)>),
}

impl<T> VectorData<T> {
    /// Whether the samples are real.
    pub fn is_real(&self) -> (yes: bool)
        ensures
            yes == (*self is Real),
    {
        match self {
            VectorData::Real(_) => true,
            VectorData::Complex(_) => false,
        }
    }

    /// The number of samples.
    pub fn len(&self) -> (count: usize)
        ensures
            count == match *self {
                VectorData::Real(samples) => samples@.len(),
                VectorData::Complex(samples) => samples@.len(),
            },
    {
        match self {
            VectorData::Real(samples) => samples.len(),
            VectorData::Complex(samples) => samples.len(),
        }
    }

    /// The samples of a vector that is expected to be real: real samples
    /// are handed over as they are, complex ones are refused with
    /// `DataShapeMismatch`, never cut down or reread as real.
    pub fn into_real(self) -> (samples: Result<Vec<T>, EngineError>)
        ensures
            match self {
                VectorData::Real(values) => samples == Ok::<Vec<T>, EngineError>(values),
                VectorData::Complex(_) => samples == Err::<Vec<T>, EngineError>(
                    EngineError::DataShapeMismatch,
                ),
            },
    {
        match self {
            VectorData::Real(values) => Ok(values),
            VectorData::Complex(_) => Err(EngineError::DataShapeMismatch),
        }
    }
}

/// The name under which the engine reports the time axis.
pub open spec fn time_name() -> Seq<char> {
    "time"@
}

/// Whether one of `names` is the time axis, so that the plot can be drawn
/// over time.
pub fn has_time(names: &Vec<String>) -> (found: bool)
    ensures
        found == exists|i: int| 0 <= i < names@.len() && (#[trigger] names@[i])@ == time_name(),
{
    let time = "time".to_owned();
    let mut i: usize = 0;
    while i < names.len()
        invariant
            i <= names@.len(),
            time@ == time_name(),
            forall|j: int| 0 <= j < i ==> (#[trigger] names@[j])@ != time_name(),
        decreases names@.len() - i,
    {
        if names[i] == time {
            return true;
        }
        i += 1;
    }
    false
}

/// The vectors of one plot, sorted into the time axis and the rest.
#[derive(Debug, Clone, PartialEq)]
pub struct PlotData<T> {
    pub time_vector: Vec<T>,
    pub other_vectors: Vec<(String, Vec<T>)>,
}

impl<T> PlotData<T> {
    /// No vectors yet.
    pub fn new() -> (data: PlotData<T>)
        ensures
            data.time_vector@ == Seq::<T>::empty(),
            data.other_vectors@ == Seq::<(String, Vec<T>)>::empty(),
    {
        PlotData { time_vector: Vec::new(), other_vectors: Vec::new() }
    }

    /// Takes in the vector `vector_name` with its samples.
    ///
    /// Complex samples are refused with `DataShapeMismatch`, and nothing
    /// changes. Real samples of the time axis are added to the end of the
    /// time vector; those of any other vector join the other vectors, under
    /// their name, behind all earlier ones.
    pub fn add(&mut self, vector_name: String, data: VectorData<T>) -> (added: Result<
        (),
        EngineError,
    >)
        ensures
            match data {
                VectorData::Complex(_) => {
                    &&& added == Err::<(), EngineError>(EngineError::DataShapeMismatch)
                    &&& *final(self) == *old(self)
                },
                VectorData::Real(values) => {
                    &&& added == Ok::<(), EngineError>(())
                    &&& if vector_name@ == time_name() {
                        &&& final(self).time_vector@ == old(self).time_vector@ + values@
                        &&& final(self).other_vectors@ == old(self).other_vectors@
                    } else {
                        &&& final(self).time_vector@ == old(self).time_vector@
                        &&& final(self).other_vectors@ == old(self).other_vectors@.push(
                            (vector_name, values),
                        )
                    }
                },
            },
    {
        match data {
            VectorData::Complex(_) => Err(EngineError::DataShapeMismatch),
            VectorData::Real(values) => {
                let time = "time".to_owned();
                if vector_name == time {
                    let mut values = values;
                    self.time_vector.append(&mut values);
                } else {
                    self.other_vectors.push((vector_name, values));
                }
                Ok(())
            },
        }
    }
}

/// One vector as the plot view holds it.
#[derive(Debug, Clone, PartialEq)]
pub struct Vector<T> {
    pub name: String,
    pub data: Vec<T>,
    /// The place of its colour in the palette.
    pub color: usize,
    pub is_visible: bool,
}

/// What the plot view shows: a time axis and the vectors drawn over it.
#[derive(Debug, Clone, PartialEq)]
pub struct PlotView<T> {
    time_vector: Vec<T>,
    other_vectors: Vec<Vector<T>>,
}

impl<T> PlotView<T> {
    /// The samples of the time axis.
    pub closed spec fn time(&self) -> Seq<T> {
        self.time_vector@
    }

    /// The vectors drawn over the time axis, in the order of their colours.
    pub closed spec fn vectors(&self) -> Seq<Vector<T>> {
        self.other_vectors@
    }

    /// An empty plot view.
    pub fn new() -> (view: PlotView<T>)
        ensures
            view.time() == Seq::<T>::empty(),
            view.vectors() == Seq::<Vector<T>>::empty(),
    {
        PlotView { time_vector: Vec::new(), other_vectors: Vec::new() }
    }

    /// Empties the plot view.
    pub fn clear(&mut self)
        ensures
            final(self).time() == Seq::<T>::empty(),
            final(self).vectors() == Seq::<Vector<T>>::empty(),
    {
        self.time_vector.clear();
        self.other_vectors.clear();
    }

    /// Shows `other_vectors` over `time_vector`.
    ///
    /// Each vector gets the colour at its own place in the palette and is
    /// visible; vectors beyond the size of the palette are left out.
    pub fn set_vectors(&mut self, time_vector: Vec<T>, other_vectors: Vec<(String, Vec<T>)>)
        ensures
            final(self).time() == time_vector@,
            final(self).vectors().len() == if other_vectors@.len() < PALETTE_SIZE {
                other_vectors@.len()
            } else {
                PALETTE_SIZE as nat
            },
            forall|i: int|
                0 <= i < final(self).vectors().len() ==> (#[trigger] final(self).vectors()[i])
                    == (Vector {
                    name: other_vectors@[i].0,
                    data: other_vectors@[i].1,
                    color: i as usize,
                    is_visible: true,
                }),
    {
        let mut rest = other_vectors;
        let mut shown: Vec<Vector<T>> = Vec::new();
        let mut i: usize = 0;
        while i < PALETTE_SIZE && rest.len() > 0
            invariant
                i <= PALETTE_SIZE,
                i == shown@.len(),
                i + rest@.len() == other_vectors@.len(),
                rest@ == other_vectors@.subrange(i as int, other_vectors@.len() as int),
                forall|j: int|
                    0 <= j < i ==> (#[trigger] shown@[j]) == (Vector {
                        name: other_vectors@[j].0,
                        data: other_vectors@[j].1,
                        color: j as usize,
                        is_visible: true,
                    }),
            decreases PALETTE_SIZE - i,
        {
            let (name, data) = rest.remove(0);
            shown.push(Vector { name, data, color: i, is_visible: true });
            i += 1;
            assert(rest@ =~= other_vectors@.subrange(i as int, other_vectors@.len() as int));
        }
        self.time_vector = time_vector;
        self.other_vectors = shown;
    }

    /// Shows or hides the first vector named `name`. Says whether there is
    /// such a vector; if there is none, nothing changes.
    pub fn set_visible(&mut self, name: &str, is_visible: bool) -> (found: bool)
        ensures
            final(self).time() == old(self).time(),
            found == (first_named(old(self).vectors(), name@) < old(self).vectors().len()),
            found ==> final(self).vectors() == old(self).vectors().update(
                first_named(old(self).vectors(), name@),
                (Vector {
                    is_visible,
                    ..old(self).vectors()[first_named(old(self).vectors(), name@)]
                }),
            ),
            !found ==> final(self).vectors() == old(self).vectors(),
    {
        let wanted = name.to_owned();
        let mut i: usize = 0;
        while i < self.other_vectors.len()
            invariant
                *self == *old(self),
                wanted@ == name@,
                i <= self.other_vectors@.len(),
                forall|j: int| 0 <= j < i ==> (#[trigger] self.other_vectors@[j]).name@ != name@,
            decreases self.other_vectors@.len() - i,
        {
            if self.other_vectors[i].name == wanted {
                proof {
                    first_named_is_first(self.other_vectors@, name@, i as int);
                }
                let vector = self.other_vectors.remove(i);
                self.other_vectors.insert(i, Vector { is_visible, ..vector });
                assert(self.other_vectors@ =~= old(self).other_vectors@.update(
                    i as int,
                    (Vector { is_visible, ..old(self).other_vectors@[i as int] }),
                ));
                return true;
            }
            i += 1;
        }
        proof {
            first_named_is_first(self.other_vectors@, name@, i as int);
        }
        false
    }

    /// The number of vectors drawn over the time axis.
    pub fn n_vectors(&self) -> (count: usize)
        ensures
            count == self.vectors().len(),
    {
        self.other_vectors.len()
    }

    /// The vector at `position`, if there is one.
    pub fn vector(&self, position: usize) -> (vector: Option<&Vector<T>>)
        ensures
            match vector {
                Some(found) => position < self.vectors().len() && *found
                    == self.vectors()[position as int],
                None => position >= self.vectors().len(),
            },
    {
        if position < self.other_vectors.len() {
            Some(&self.other_vectors[position])
        } else {
            None
        }
    }

    /// The samples of the time axis.
    pub fn time_vector(&self) -> (time: &Vec<T>)
        ensures
            time@ == self.time(),
    {
        &self.time_vector
    }
}

/// Whether `lo` and `hi` are the places of the least and of the greatest of
/// `keys`: of the first among equal least ones, and of the last among equal
/// greatest ones.
pub open spec fn is_extent(keys: Seq<i64>, lo: int, hi: int) -> bool {
    &&& 0 <= lo < keys.len()
    &&& 0 <= hi < keys.len()
    &&& forall|i: int| 0 <= i < keys.len() ==> keys[lo] <= #[trigger] keys[i]
    &&& forall|i: int| 0 <= i < lo ==> keys[lo] < #[trigger] keys[i]
    &&& forall|i: int| 0 <= i < keys.len() ==> #[trigger] keys[i] <= keys[hi]
    &&& forall|i: int| hi < i < keys.len() ==> #[trigger] keys[i] < keys[hi]
}

/// The places of the least and of the greatest of `keys`, between which an
/// axis that shows all of them has to reach; none if there are no keys.
///
/// Samples are ordered by keys: whoever holds the samples gives each a key
/// so that the keys stand in the order of the samples.
pub fn extent(keys: &Vec<i64>) -> (found: Option<(usize, usize)>)
    ensures
        match found {
            Some((lo, hi)) => is_extent(keys@, lo as int, hi as int),
            None => keys@.len() == 0,
        },
{
    if keys.len() == 0 {
        return None;
    }
    let mut lo: usize = 0;
    let mut hi: usize = 0;
    let mut i: usize = 1;
    while i < keys.len()
        invariant
            1 <= i <= keys@.len(),
            is_extent(keys@.subrange(0, i as int), lo as int, hi as int),
        decreases keys@.len() - i,
    {
        let ghost seen = keys@.subrange(0, i as int);
        let ghost more = keys@.subrange(0, i + 1);
        if keys[i] < keys[lo] {
            lo = i;
        }
        if keys[i] >= keys[hi] {
            hi = i;
        }
        proof {
            assert forall|j: int| 0 <= j < more.len() implies more[lo as int] <= #[trigger] more[j] by {
                if j < i {
                    assert(more[j] == seen[j]);
                }
            }
            assert forall|j: int| 0 <= j < lo implies more[lo as int] < #[trigger] more[j] by {
                assert(more[j] == seen[j]);
            }
            assert forall|j: int| 0 <= j < more.len() implies #[trigger] more[j] <= more[hi as int] by {
                if j < i {
                    assert(more[j] == seen[j]);
                }
            }
            assert forall|j: int| hi < j < more.len() implies #[trigger] more[j] < more[hi as int] by {
                if j < i {
                    assert(more[j] == seen[j]);
                }
            }
        }
        i += 1;
    }
    assert(keys@.subrange(0, i as int) =~= keys@);
    Some((lo, hi))
}

/// The place of the first of `vectors` that is named `name`, or the number
/// of vectors if none is.
pub open spec fn first_named<T>(vectors: Seq<Vector<T>>, name: Seq<char>) -> int
    decreases vectors.len(),
{
    if vectors.len() == 0 || vectors[0].name@ == name {
        0
    } else {
        1 + first_named(vectors.drop_first(), name)
    }
}

/// `first_named` is the place before which no vector has the name and at
/// which one has it, or the end.
proof fn first_named_is_first<T>(vectors: Seq<Vector<T>>, name: Seq<char>, at: int)
    requires
        0 <= at <= vectors.len(),
        forall|j: int| 0 <= j < at ==> (#[trigger] vectors[j]).name@ != name,
        at == vectors.len() || vectors[at].name@ == name,
    ensures
        first_named(vectors, name) == at,
    decreases vectors.len(),
{
    if at > 0 {
        let rest = vectors.drop_first();
        assert(vectors[0].name@ != name);
        assert forall|j: int| 0 <= j < at - 1 implies (#[trigger] rest[j]).name@ != name by {
            assert(rest[j] == vectors[j + 1]);
        }
        first_named_is_first(rest, name, at - 1);
    }
}

} // verus!
