//! Metadata records describing models, their tensors, and the server.

use vstd::prelude::*;

use crate::memory::DataType;

verus! {

/// Shape of a tensor: its name, element type and dimension list.
#[derive(Debug, Clone, PartialEq, Eq, Hash)]
pub struct Shape {
    pub name: String,
    pub datatype: DataType,
    pub dims: Vec<i64>,
}

/// A model's metadata: its tensor signature and available versions.
#[derive(Debug, Clone, PartialEq, Eq, Hash)]
pub struct Model {
    pub name: String,
    pub platform: String,
    pub versions: Vec<String>,
    pub inputs: Vec<Shape>,
    pub outputs: Vec<Shape>,
}

/// State of a loaded model.
#[derive(Debug, Clone, Copy, PartialEq, Eq, Structural, Hash)]
pub enum State {
    Ready,
}

/// Loaded model information.
#[derive(Debug, Clone, PartialEq, Eq, Hash)]
pub struct Index {
    pub name: String,
    pub state: State,
    pub version: i64,
}

/// The server's own metadata.
#[derive(Debug, Clone, PartialEq, Eq, Hash)]
pub struct Server {
    pub name: String,
    pub version: String,
    pub extensions: Vec<String>,
}

/// The number of elements a dimension list describes: the product of its
/// positive entries. Non-positive entries stand for dimensions the model
/// leaves open and count as one.
pub open spec fn dims_volume(dims: Seq<i64>) -> int
    decreases dims.len(),
{
    if dims.len() == 0 {
        1
    } else {
        (if dims[0] > 0 {
            dims[0] as int
        } else {
            1
        }) * dims_volume(dims.drop_first())
    }
}

pub proof fn lemma_dims_volume_pos(dims: Seq<i64>)
    ensures
        dims_volume(dims) >= 1,
    decreases dims.len(),
{
    if dims.len() > 0 {
        lemma_dims_volume_pos(dims.drop_first());
        let head: int = if dims[0] > 0 {
            dims[0] as int
        } else {
            1
        };
        assert(head * dims_volume(dims.drop_first()) >= 1) by (nonlinear_arith)
            requires
                head >= 1,
                dims_volume(dims.drop_first()) >= 1,
        ;
    }
}

/// The volume of a dimension list splits at any position.
pub proof fn lemma_dims_volume_split(dims: Seq<i64>, i: int)
    requires
        0 <= i <= dims.len(),
    ensures
        dims_volume(dims) == dims_volume(dims.take(i)) * dims_volume(dims.skip(i)),
    decreases i,
{
    if i == 0 {
        assert(dims.take(0) =~= Seq::<i64>::empty());
        assert(dims.skip(0) =~= dims);
    } else {
        lemma_dims_volume_split(dims.drop_first(), i - 1);
        let head: int = if dims[0] > 0 {
            dims[0] as int
        } else {
            1
        };
        assert(dims.take(i).drop_first() =~= dims.drop_first().take(i - 1));
        assert(dims.take(i)[0] == dims[0]);
        assert(dims.skip(i) =~= dims.drop_first().skip(i - 1));
        let a = dims_volume(dims.drop_first().take(i - 1));
        let b = dims_volume(dims.drop_first().skip(i - 1));
        assert(head * (a * b) == (head * a) * b) by (nonlinear_arith);
    }
}

/// The least byte size a buffer must have to hold a tensor of `dims`
/// dimensions and `datatype` elements.
pub open spec fn min_byte_size(dims: Seq<i64>, datatype: DataType) -> int {
    dims_volume(dims) * datatype.size_spec()
}

/// Decide whether `available` bytes can hold a tensor of `dims` dimensions
/// and elements of `elem_size` bytes.
pub fn dims_fit(dims: &Vec<i64>, elem_size: u32, available: usize) -> (r: bool)
    ensures
        r == (dims_volume(dims@) * elem_size <= available),
{
    let mut acc: u128 = elem_size as u128;
    let mut i: usize = 0;
    proof {
        assert(dims@.take(0) =~= Seq::<i64>::empty());
    }
    while i < dims.len()
        invariant
            i <= dims@.len(),
            acc == elem_size * dims_volume(dims@.take(i as int)),
        decreases dims@.len() - i,
    {
        proof {
            lemma_dims_volume_pos(dims@.take(i as int));
            lemma_dims_volume_pos(dims@.skip(i as int));
        }
        if acc > available as u128 {
            // the remaining factors are all at least one, so the full
            // volume cannot fit either
            proof {
                lemma_dims_volume_split(dims@, i as int);
                assert(elem_size * dims_volume(dims@) >= elem_size * dims_volume(
                    dims@.take(i as int),
                )) by (nonlinear_arith)
                    requires
                        dims_volume(dims@) == dims_volume(dims@.take(i as int)) * dims_volume(
                            dims@.skip(i as int),
                        ),
                        dims_volume(dims@.skip(i as int)) >= 1,
                        dims_volume(dims@.take(i as int)) >= 0,
                        elem_size >= 0,
                ;
                assert(dims_volume(dims@) * elem_size == elem_size * dims_volume(dims@))
                    by (nonlinear_arith);
            }
            return false;
        }
        let d = dims[i];
        let ghost prefix = dims@.take(i as int);
        if d > 0 {
            proof {
                assert(acc <= 0xffff_ffff_ffff_ffffu128);
                assert(acc * (d as u128) <= u128::MAX) by (nonlinear_arith)
                    requires
                        acc <= 0xffff_ffff_ffff_ffffu128,
                        0 < (d as u128) <= 0x7fff_ffff_ffff_ffffu128,
                ;
            }
            acc = acc * (d as u128);
        }
        i += 1;
        proof {
            assert(dims@.take(i as int).drop_last() =~= prefix);
            assert(dims@.take(i as int).last() == dims@[i - 1]);
            lemma_dims_volume_snoc(dims@.take(i as int));
            let head: int = if dims@[i - 1] > 0 {
                dims@[i - 1] as int
            } else {
                1
            };
            assert(elem_size * (dims_volume(prefix) * head) == (elem_size * dims_volume(
                prefix,
            )) * head) by (nonlinear_arith);
        }
    }
    proof {
        assert(dims@.take(dims@.len() as int) =~= dims@);
        assert(dims_volume(dims@) * elem_size == elem_size * dims_volume(dims@))
            by (nonlinear_arith);
    }
    acc <= available as u128
}

/// The volume of a dimension list gains the last entry as a factor.
pub proof fn lemma_dims_volume_snoc(dims: Seq<i64>)
    requires
        dims.len() >= 1,
    ensures
        dims_volume(dims) == dims_volume(dims.drop_last()) * (if dims.last() > 0 {
            dims.last() as int
        } else {
            1
        }),
{
    lemma_dims_volume_split(dims, dims.len() - 1);
    assert(dims.take(dims.len() - 1) =~= dims.drop_last());
    let tail = dims.skip(dims.len() - 1);
    assert(tail.len() == 1);
    assert(tail[0] == dims.last());
    assert(tail.drop_first() =~= Seq::<i64>::empty());
    assert(dims_volume(Seq::<i64>::empty()) == 1);
    let t: int = if dims.last() > 0 {
        dims.last() as int
    } else {
        1
    };
    assert(dims_volume(tail) == t * 1);
}

} // verus!
