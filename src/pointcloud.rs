//! Point cloud bodies as published on `rt/radar/targets` and
//! `rt/radar/clusters`: one row of points, each point a run of 32-bit
//! fields stored little-endian.
use vstd::prelude::*;
use crate::bytes::u32_to_le;

verus! {

/// Data type codes of `sensor_msgs/PointField`.
#[allow(non_camel_case_types, clippy::upper_case_acronyms)]
#[derive(Debug, Clone, Copy, PartialEq, Eq, Structural)]
pub enum PointFieldType {
    INT8,
    UINT8,
    INT16,
    UINT16,
    INT32,
    UINT32,
    FLOAT32,
    FLOAT64,
}

impl PointFieldType {
    pub open spec fn spec_code(self) -> u8 {
        match self {
            PointFieldType::INT8 => 1,
            PointFieldType::UINT8 => 2,
            PointFieldType::INT16 => 3,
            PointFieldType::UINT16 => 4,
            PointFieldType::INT32 => 5,
            PointFieldType::UINT32 => 6,
            PointFieldType::FLOAT32 => 7,
            PointFieldType::FLOAT64 => 8,
        }
    }

    /// The data type code on the wire.
    pub fn code(&self) -> (r: u8)
        ensures
            r == self.spec_code(),
    {
        match self {
            PointFieldType::INT8 => 1,
            PointFieldType::UINT8 => 2,
            PointFieldType::INT16 => 3,
            PointFieldType::UINT16 => 4,
            PointFieldType::INT32 => 5,
            PointFieldType::UINT32 => 6,
            PointFieldType::FLOAT32 => 7,
            PointFieldType::FLOAT64 => 8,
        }
    }
}

/// One entry of a cloud's field table.
#[derive(Debug, Clone, Copy, PartialEq, Eq)]
pub struct PointField {
    pub name: &'static str,
    pub offset: u32,
    pub datatype: u8,
    pub count: u32,
}

/// Whether `f` is the single FLOAT32 field `name` at byte `offset`.
pub open spec fn float_field(f: PointField, name: Seq<char>, offset: u32) -> bool {
    &&& f.name@ == name
    &&& f.offset == offset
    &&& f.datatype == PointFieldType::FLOAT32.spec_code()
    &&& f.count == 1
}

/// Whether `t` is the field table of a target cloud: x, y, z, speed, power
/// and rcs at offsets 0, 4, 8, 12, 16 and 20.
pub open spec fn is_target_table(t: Seq<PointField>) -> bool {
    &&& t.len() >= 6
    &&& float_field(t[0], "x"@, 0)
    &&& float_field(t[1], "y"@, 4)
    &&& float_field(t[2], "z"@, 8)
    &&& float_field(t[3], "speed"@, 12)
    &&& float_field(t[4], "power"@, 16)
    &&& float_field(t[5], "rcs"@, 20)
}

fn float32(name: &'static str, offset: u32) -> (r: PointField)
    ensures
        r.name@ == name@,
        r.offset == offset,
        r.datatype == PointFieldType::FLOAT32.spec_code(),
        r.count == 1,
{
    PointField { name, offset, datatype: PointFieldType::FLOAT32.code(), count: 1 }
}

/// The field table of `rt/radar/targets`.
pub fn target_fields() -> (r: Vec<PointField>)
    ensures
        r@.len() == 6,
        is_target_table(r@),
{
    let mut r: Vec<PointField> = Vec::new();
    r.push(float32("x", 0));
    r.push(float32("y", 4));
    r.push(float32("z", 8));
    r.push(float32("speed", 12));
    r.push(float32("power", 16));
    r.push(float32("rcs", 20));
    r
}

/// The field table of `rt/radar/clusters`: the target fields and
/// cluster_id at offset 24.
pub fn cluster_fields() -> (r: Vec<PointField>)
    ensures
        r@.len() == 7,
        is_target_table(r@),
        float_field(r@[6], "cluster_id"@, 24),
{
    let mut r = target_fields();
    r.push(float32("cluster_id", 24));
    r
}

/// The schema name under which point clouds are published.
pub fn point_cloud_schema() -> (r: &'static str)
    ensures
        r@ == "sensor_msgs/msg/PointCloud2"@,
{
    "sensor_msgs/msg/PointCloud2"
}

/// Layout, field table and bytes of a `PointCloud2` body.
#[derive(Debug, Clone, PartialEq)]
pub struct PointCloudData {
    pub height: u32,
    pub width: u32,
    pub fields: Vec<PointField>,
    pub point_step: u32,
    pub row_step: u32,
    pub is_bigendian: bool,
    pub is_dense: bool,
    pub data: Vec<u8>,
}

/// The little-endian bytes of the 32-bit words `w`, word after word.
pub open spec fn le_words(w: Seq<u32>) -> Seq<u8> {
    Seq::new(
        4 * w.len(),
        |i: int|
            {
                let x = w[i / 4];
                let k = i % 4;
                if k == 0 {
                    (x % 0x100) as u8
                } else if k == 1 {
                    ((x / 0x100) % 0x100) as u8
                } else if k == 2 {
                    ((x / 0x1_0000) % 0x100) as u8
                } else {
                    (x / 0x100_0000) as u8
                }
            },
    )
}

/// Whether `n` words of `fields` fields each make a cloud whose sizes fit
/// the message's 32-bit fields.
pub open spec fn cloud_fits(n: int, fields: int) -> bool {
    &&& 0 < fields <= u32::MAX / 4
    &&& n % fields == 0
    &&& 4 * n <= u32::MAX
}

/// Whether `c` is the single-row dense cloud of the words `words` under
/// the field table `fields`, one 32-bit word per field.
pub open spec fn is_cloud(c: PointCloudData, words: Seq<u32>, fields: Seq<PointField>) -> bool {
    &&& c.height == 1
    &&& c.width == words.len() as int / fields.len() as int
    &&& c.fields@ == fields
    &&& c.point_step == 4 * fields.len()
    &&& c.row_step == c.width * c.point_step
    &&& c.data@.len() == c.row_step
    &&& c.data@ == le_words(words)
    &&& !c.is_bigendian
    &&& c.is_dense
}

/// Packs points given as the bit patterns of their fields, one word per
/// entry of `fields`, into a single-row dense cloud.
pub fn pack_points(words: &Vec<u32>, fields: Vec<PointField>) -> (r: Option<PointCloudData>)
    ensures
        r is Some <==> cloud_fits(words@.len() as int, fields@.len() as int),
        r matches Some(c) ==> is_cloud(c, words@, fields@),
{
    let nf = fields.len();
    if nf == 0 || nf > (u32::MAX / 4) as usize {
        return None;
    }
    let n = words.len();
    if n % nf != 0 || n > 0x3FFF_FFFF {
        return None;
    }
    let width = (n / nf) as u32;
    let point_step = 4 * nf as u32;
    proof {
        let (nn, f) = (n as int, nf as int);
        assert((nn / f) * f == nn) by (nonlinear_arith)
            requires
                nn % f == 0,
                f > 0,
        ;
        assert((nn / f) * (4 * f) == 4 * nn) by (nonlinear_arith)
            requires
                (nn / f) * f == nn,
        ;
    }
    let mut data: Vec<u8> = Vec::new();
    let mut i: usize = 0;
    while i < n
        invariant
            i <= n,
            n == words@.len(),
            data@ == le_words(words@.take(i as int)),
        decreases n - i,
    {
        let b = u32_to_le(words[i]);
        data.push(b[0]);
        data.push(b[1]);
        data.push(b[2]);
        data.push(b[3]);
        assert(data@ =~= le_words(words@.take(i + 1)));
        i = i + 1;
    }
    assert(words@.take(n as int) =~= words@);
    let row_step = if n == 0 {
        0
    } else {
        width * point_step
    };
    Some(
        PointCloudData {
            height: 1,
            width,
            fields,
            point_step,
            row_step,
            is_bigendian: false,
            is_dense: true,
            data,
        },
    )
}

/// The words of target points, point after point.
pub open spec fn target_words(p: Seq<[u32; 6]>) -> Seq<u32> {
    Seq::new(6 * p.len(), |i: int| p[i / 6]@[i % 6])
}

/// The words of cluster points: each target point's six words, then its
/// cluster ID.
pub open spec fn cluster_words(p: Seq<[u32; 6]>, ids: Seq<u32>) -> Seq<u32> {
    Seq::new(7 * p.len(), |i: int| if i % 7 < 6 { p[i / 7]@[i % 7] } else { ids[i / 7] })
}

/// The `rt/radar/targets` cloud of target points given as the bit patterns
/// of x, y, z, speed, power and rcs.
pub fn format_targets(points: &Vec<[u32; 6]>) -> (r: Option<PointCloudData>)
    ensures
        r is Some <==> 24 * points@.len() <= u32::MAX,
        r matches Some(c) ==> {
            &&& is_cloud(c, target_words(points@), c.fields@)
            &&& c.fields@.len() == 6
            &&& is_target_table(c.fields@)
            &&& c.width == points@.len()
            &&& c.point_step == 24
        },
{
    let n = points.len();
    if n > 0x0AAA_AAAA {
        return None;
    }
    let mut words: Vec<u32> = Vec::new();
    let mut i: usize = 0;
    while i < n
        invariant
            i <= n,
            n == points@.len(),
            words@ == target_words(points@.take(i as int)),
        decreases n - i,
    {
        let p = points[i];
        let mut k: usize = 0;
        while k < 6
            invariant
                k <= 6,
                i < n,
                n == points@.len(),
                p == points@[i as int],
                words@ == target_words(points@.take(i as int)) + p@.take(k as int),
            decreases 6 - k,
        {
            words.push(p[k]);
            assert(p@.take(k + 1) =~= p@.take(k as int).push(p@[k as int]));
            k = k + 1;
        }
        assert(words@ =~= target_words(points@.take(i + 1)));
        i = i + 1;
    }
    assert(points@.take(n as int) =~= points@);
    proof {
        assert(6 * n % 6 == 0);
        assert((6 * n) / 6 == n);
    }
    pack_points(&words, target_fields())
}

/// The `rt/radar/clusters` cloud: each target point followed by its cluster
/// ID, both as bit patterns.  `None` when the counts differ or the cloud is
/// too large.
pub fn format_clusters(points: &Vec<[u32; 6]>, ids: &Vec<u32>) -> (r: Option<PointCloudData>)
    ensures
        r is Some <==> ids@.len() == points@.len() && 28 * points@.len() <= u32::MAX,
        r matches Some(c) ==> {
            &&& is_cloud(c, cluster_words(points@, ids@), c.fields@)
            &&& c.fields@.len() == 7
            &&& is_target_table(c.fields@)
            &&& float_field(c.fields@[6], "cluster_id"@, 24)
            &&& c.width == points@.len()
            &&& c.point_step == 28
        },
{
    let n = points.len();
    if ids.len() != n || n > 0x0924_9249 {
        return None;
    }
    let mut words: Vec<u32> = Vec::new();
    let mut i: usize = 0;
    while i < n
        invariant
            i <= n,
            n == points@.len(),
            n == ids@.len(),
            words@ == cluster_words(points@.take(i as int), ids@.take(i as int)),
        decreases n - i,
    {
        let p = points[i];
        let mut k: usize = 0;
        while k < 6
            invariant
                k <= 6,
                i < n,
                n == points@.len(),
                p == points@[i as int],
                words@ == cluster_words(points@.take(i as int), ids@.take(i as int)) + p@.take(
                    k as int,
                ),
            decreases 6 - k,
        {
            words.push(p[k]);
            assert(p@.take(k + 1) =~= p@.take(k as int).push(p@[k as int]));
            k = k + 1;
        }
        words.push(ids[i]);
        assert(words@ =~= cluster_words(points@.take(i + 1), ids@.take(i + 1)));
        i = i + 1;
    }
    assert(points@.take(n as int) =~= points@);
    assert(ids@.take(n as int) =~= ids@);
    proof {
        assert((7 * n) / 7 == n);
    }
    pack_points(&words, cluster_fields())
}

} // verus!
