//! Packets that the server sends to the admin client.

use vstd::prelude::*;
use vstd::pervasive::unreached;
use crate::date::{Date as GameDate, MAX_DAY};
use crate::laws::{lemma_all_fit_index, lemma_fields_fit_index};
use crate::types::{ALL_FREQUENCIES, AdminUpdateType, MAX_UPDATE_TYPE, UpdateFrequencies};
use crate::value::{
    Shape, ShapeModel, Value, ValueModel, fits, lemma_shape_view_index, lemma_shape_views,
    lemma_value_view_index, lemma_value_views,
    shape_views, value_views,
};

verus! {

broadcast use {
    lemma_value_views,
    lemma_shape_views,
    lemma_value_view_index,
    lemma_shape_view_index,
};

/// The model of an optional `u64` field.
pub open spec fn opt_u64_model(o: Option<u64>) -> ValueModel {
    match o {
        Some(x) => ValueModel::Opt(Some(Box::new(ValueModel::U64(x)))),
        None => ValueModel::Opt(None),
    }
}

pub(crate) fn record_fields(v: &Value) -> (r: &Vec<Value>)
    requires
        v@ is Record,
    ensures
        v@ == ValueModel::Record(value_views(r@)),
{
    match v {
        Value::Record(fs) => fs,
        _ => unreached(),
    }
}

pub(crate) fn get_bool(fs: &Vec<Value>, i: usize) -> (r: bool)
    requires
        i < fs@.len(),
        fits(value_views(fs@)[i as int], ShapeModel::Bool),
    ensures
        value_views(fs@)[i as int] == ValueModel::Bool(r),
{
    match &fs[i] {
        Value::Bool(x) => *x,
        _ => unreached(),
    }
}

pub(crate) fn get_u8(fs: &Vec<Value>, i: usize) -> (r: u8)
    requires
        i < fs@.len(),
        fits(value_views(fs@)[i as int], ShapeModel::U8),
    ensures
        value_views(fs@)[i as int] == ValueModel::U8(r),
{
    match &fs[i] {
        Value::U8(x) => *x,
        _ => unreached(),
    }
}

pub(crate) fn get_u16(fs: &Vec<Value>, i: usize) -> (r: u16)
    requires
        i < fs@.len(),
        fits(value_views(fs@)[i as int], ShapeModel::U16),
    ensures
        value_views(fs@)[i as int] == ValueModel::U16(r),
{
    match &fs[i] {
        Value::U16(x) => *x,
        _ => unreached(),
    }
}

pub(crate) fn get_u32(fs: &Vec<Value>, i: usize) -> (r: u32)
    requires
        i < fs@.len(),
        fits(value_views(fs@)[i as int], ShapeModel::U32),
    ensures
        value_views(fs@)[i as int] == ValueModel::U32(r),
{
    match &fs[i] {
        Value::U32(x) => *x,
        _ => unreached(),
    }
}

fn get_u64(fs: &Vec<Value>, i: usize) -> (r: u64)
    requires
        i < fs@.len(),
        fits(value_views(fs@)[i as int], ShapeModel::U64),
    ensures
        value_views(fs@)[i as int] == ValueModel::U64(r),
{
    match &fs[i] {
        Value::U64(x) => *x,
        _ => unreached(),
    }
}

fn get_i64(fs: &Vec<Value>, i: usize) -> (r: i64)
    requires
        i < fs@.len(),
        fits(value_views(fs@)[i as int], ShapeModel::I64),
    ensures
        value_views(fs@)[i as int] == ValueModel::I64(r),
{
    match &fs[i] {
        Value::I64(x) => *x,
        _ => unreached(),
    }
}

pub(crate) fn get_string(fs: &Vec<Value>, i: usize) -> (r: String)
    requires
        i < fs@.len(),
        fits(value_views(fs@)[i as int], ShapeModel::Str),
    ensures
        value_views(fs@)[i as int] == ValueModel::Str(r@),
{
    match &fs[i] {
        Value::Str(s) => s.clone(),
        _ => unreached(),
    }
}

fn get_date(fs: &Vec<Value>, i: usize) -> (r: GameDate)
    requires
        i < fs@.len(),
        fits(value_views(fs@)[i as int], ShapeModel::U32Max(MAX_DAY)),
    ensures
        value_views(fs@)[i as int] == ValueModel::U32(r.days()),
{
    match &fs[i] {
        Value::U32(x) => match GameDate::from_openttd_date(*x) {
            Ok(d) => d,
            Err(_) => unreached(),
        },
        _ => unreached(),
    }
}

fn get_update_type(fs: &Vec<Value>, i: usize) -> (r: AdminUpdateType)
    requires
        i < fs@.len(),
        fits(value_views(fs@)[i as int], ShapeModel::U16Max(MAX_UPDATE_TYPE)),
    ensures
        value_views(fs@)[i as int] == ValueModel::U16(r.code()),
{
    match &fs[i] {
        Value::U16(x) => match AdminUpdateType::from_u16(*x) {
            Some(t) => t,
            None => unreached(),
        },
        _ => unreached(),
    }
}

fn get_frequencies(fs: &Vec<Value>, i: usize) -> (r: UpdateFrequencies)
    requires
        i < fs@.len(),
        fits(value_views(fs@)[i as int], ShapeModel::U16Max(ALL_FREQUENCIES)),
    ensures
        value_views(fs@)[i as int] == ValueModel::U16(r.spec_bits()),
{
    match &fs[i] {
        Value::U16(x) => {
            let b = *x;
            assert(b <= ALL_FREQUENCIES ==> b & !ALL_FREQUENCIES == 0) by (bit_vector);
            match UpdateFrequencies::from_bits(b) {
                Some(f) => f,
                None => unreached(),
            }
        },
        _ => unreached(),
    }
}

fn get_opt_u64(fs: &Vec<Value>, i: usize) -> (r: Option<u64>)
    requires
        i < fs@.len(),
        fits(value_views(fs@)[i as int], ShapeModel::Opt(Box::new(ShapeModel::U64))),
    ensures
        value_views(fs@)[i as int] == opt_u64_model(r),
{
    match &fs[i] {
        Value::Opt(None) => None,
        Value::Opt(Some(b)) => {
            assert(fits((**b)@, ShapeModel::U64));
            match &**b {
                Value::U64(x) => Some(*x),
                _ => unreached(),
            }
        },
        _ => unreached(),
    }
}

fn get_descriptions(fs: &Vec<Value>, i: usize) -> (r: Vec<UpdatePacketDescription>)
    requires
        i < fs@.len(),
        fits(
            value_views(fs@)[i as int],
            ShapeModel::List(Box::new(UpdatePacketDescription::shape_model())),
        ),
    ensures
        value_views(fs@)[i as int] == ValueModel::List(
            r@.map_values(|e: UpdatePacketDescription| e.model()),
        ),
{
    let items = match &fs[i] {
        Value::List(items) => items,
        _ => unreached(),
    };
    let ghost vs = value_views(items@);
    proof {
        lemma_all_fit_index(vs, UpdatePacketDescription::shape_model());
    }
    let mut out: Vec<UpdatePacketDescription> = Vec::new();
    let mut j: usize = 0;
    while j < items.len()
        invariant
            j <= items@.len(),
            out@.len() == j,
            vs == value_views(items@),
            forall|k: int|
                0 <= k < vs.len() ==> fits(#[trigger] vs[k], UpdatePacketDescription::shape_model()),
            out@.map_values(|e: UpdatePacketDescription| e.model()) =~= vs.subrange(
                0,
                j as int,
            ),
        decreases items@.len() - j,
    {
        assert(vs[j as int] == items@[j as int]@);
        let d = UpdatePacketDescription::from_value(&items[j]);
        let ghost before = out@;
        out.push(d);
        j = j + 1;
        assert forall|k: int| 0 <= k < j implies out@.map_values(
            |e: UpdatePacketDescription| e.model(),
        )[k] == #[trigger] vs[k] by {
            if k < j - 1 {
                assert(out@[k] == before[k]);
                assert(before.map_values(|e: UpdatePacketDescription| e.model())[k] == vs.subrange(
                    0,
                    j - 1,
                )[k]);
            }
        }
        assert(out@.map_values(|e: UpdatePacketDescription| e.model()) =~= vs.subrange(
            0,
            j as int,
        ));
    }
    assert(vs.subrange(0, j as int) =~= vs);
    out
}

fn get_cmd_names(fs: &Vec<Value>, i: usize) -> (r: Vec<CmdName>)
    requires
        i < fs@.len(),
        fits(value_views(fs@)[i as int], ShapeModel::List(Box::new(CmdName::shape_model()))),
    ensures
        value_views(fs@)[i as int] == ValueModel::List(r@.map_values(|e: CmdName| e.model())),
{
    let items = match &fs[i] {
        Value::List(items) => items,
        _ => unreached(),
    };
    let ghost vs = value_views(items@);
    proof {
        lemma_all_fit_index(vs, CmdName::shape_model());
    }
    let mut out: Vec<CmdName> = Vec::new();
    let mut j: usize = 0;
    while j < items.len()
        invariant
            j <= items@.len(),
            out@.len() == j,
            vs == value_views(items@),
            forall|k: int|
                0 <= k < vs.len() ==> fits(#[trigger] vs[k], CmdName::shape_model()),
            out@.map_values(|e: CmdName| e.model()) =~= vs.subrange(
                0,
                j as int,
            ),
        decreases items@.len() - j,
    {
        assert(vs[j as int] == items@[j as int]@);
        let d = CmdName::from_value(&items[j]);
        let ghost before = out@;
        out.push(d);
        j = j + 1;
        assert forall|k: int| 0 <= k < j implies out@.map_values(
            |e: CmdName| e.model(),
        )[k] == #[trigger] vs[k] by {
            if k < j - 1 {
                assert(out@[k] == before[k]);
                assert(before.map_values(|e: CmdName| e.model())[k] == vs.subrange(
                    0,
                    j - 1,
                )[k]);
            }
        }
        assert(out@.map_values(|e: CmdName| e.model()) =~= vs.subrange(
            0,
            j as int,
        ));
    }
    assert(vs.subrange(0, j as int) =~= vs);
    out
}

/// An error was caused by this admin connection (connection gets closed).
#[derive(Debug, Clone, PartialEq, Eq)]
pub struct Error {
    /// The error caused.
    pub error_code: u8,
}

impl Error {
    /// The layout of the packet body.
    pub open spec fn shape_model() -> ShapeModel {
        ShapeModel::Record(seq![ShapeModel::U8])
    }

    /// The packet as a value of its layout.
    pub open spec fn model(&self) -> ValueModel {
        ValueModel::Record(seq![ValueModel::U8(self.error_code)])
    }

    /// The layout of the packet body.
    pub fn shape() -> (r: Shape)
        ensures
            r@ == Self::shape_model(),
    {
        let r = Shape::Record(vec![Shape::U8]);
        assert(shape_views(r->Record_0@) =~= Self::shape_model()->Record_0);
        r
    }

    /// The packet that a value of its layout stands for.
    pub fn from_value(v: &Value) -> (r: Self)
        requires
            fits(v@, Self::shape_model()),
        ensures
            r.model() == v@,
    {
        let fs = record_fields(v);
        proof {
            lemma_fields_fit_index(value_views(fs@), Self::shape_model()->Record_0);
        }
        let r = Error {
            error_code: get_u8(fs, 0),
        };
        assert(r.model()->Record_0 =~= value_views(fs@));
        r
    }
}

/// Describes an update packet the admin client can register for.
#[derive(Debug, Clone, PartialEq, Eq)]
pub struct UpdatePacketDescription {
    /// Update packet type.
    pub packet_type: AdminUpdateType,
    /// Frequencies allowed for this update packet (bitwise).
    pub frequencies_allowed: UpdateFrequencies,
}

impl UpdatePacketDescription {
    /// The layout of the packet body.
    pub open spec fn shape_model() -> ShapeModel {
        ShapeModel::Record(seq![
            ShapeModel::U16Max(MAX_UPDATE_TYPE),
            ShapeModel::U16Max(ALL_FREQUENCIES),
        ])
    }

    /// The packet as a value of its layout.
    pub open spec fn model(&self) -> ValueModel {
        ValueModel::Record(seq![
            ValueModel::U16(self.packet_type.code()),
            ValueModel::U16(self.frequencies_allowed.spec_bits()),
        ])
    }

    /// The layout of the packet body.
    pub fn shape() -> (r: Shape)
        ensures
            r@ == Self::shape_model(),
    {
        let r = Shape::Record(vec![Shape::U16Max(MAX_UPDATE_TYPE), Shape::U16Max(ALL_FREQUENCIES)]);
        assert(shape_views(r->Record_0@) =~= Self::shape_model()->Record_0);
        r
    }

    /// The packet that a value of its layout stands for.
    pub fn from_value(v: &Value) -> (r: Self)
        requires
            fits(v@, Self::shape_model()),
        ensures
            r.model() == v@,
    {
        let fs = record_fields(v);
        proof {
            lemma_fields_fit_index(value_views(fs@), Self::shape_model()->Record_0);
        }
        let r = UpdatePacketDescription {
            packet_type: get_update_type(fs, 0),
            frequencies_allowed: get_frequencies(fs, 1),
        };
        assert(r.model()->Record_0 =~= value_views(fs@));
        r
    }
}

/// Inform a just joined admin about the protocol specifics.
#[derive(Debug, Clone, PartialEq, Eq)]
pub struct Protocol {
    /// Protocol version.
    pub version: u8,
    /// Different update packet descriptions.
    pub update_packets: Vec<UpdatePacketDescription>,
}

impl Protocol {
    /// The layout of the packet body.
    pub open spec fn shape_model() -> ShapeModel {
        ShapeModel::Record(seq![
            ShapeModel::U8,
            ShapeModel::List(Box::new(UpdatePacketDescription::shape_model())),
        ])
    }

    /// The packet as a value of its layout.
    pub open spec fn model(&self) -> ValueModel {
        ValueModel::Record(seq![
            ValueModel::U8(self.version),
            ValueModel::List(
                self.update_packets@.map_values(|e: UpdatePacketDescription| e.model()),
            ),
        ])
    }

    /// The layout of the packet body.
    pub fn shape() -> (r: Shape)
        ensures
            r@ == Self::shape_model(),
    {
        let r = Shape::Record(vec![
            Shape::U8,
            Shape::List(Box::new(UpdatePacketDescription::shape())),
        ]);
        assert(shape_views(r->Record_0@) =~= Self::shape_model()->Record_0);
        r
    }

    /// The packet that a value of its layout stands for.
    pub fn from_value(v: &Value) -> (r: Self)
        requires
            fits(v@, Self::shape_model()),
        ensures
            r.model() == v@,
    {
        let fs = record_fields(v);
        proof {
            lemma_fields_fit_index(value_views(fs@), Self::shape_model()->Record_0);
        }
        let r = Protocol {
            version: get_u8(fs, 0),
            update_packets: get_descriptions(fs, 1),
        };
        assert(r.model()->Record_0 =~= value_views(fs@));
        r
    }
}

/// Welcome a connected admin to the game.
#[derive(Debug, Clone, PartialEq, Eq)]
pub struct Welcome {
    /// Name of the Server (e.g. as advertised to master server).
    pub server_name: String,
    /// OpenTTD version string.
    pub openttd_version: String,
    /// Server is dedicated.
    pub is_dedicated: bool,
    /// Name of the Map.
    pub map_name: String,
    /// Random seed of the Map.
    pub map_seed: u32,
    /// Landscape of the Map.
    pub map_landscape: u8,
    /// Start date of the Map.
    pub map_start_date: GameDate,
    /// Map width.
    pub map_width: u16,
    /// Map height.
    pub map_height: u16,
}

impl Welcome {
    /// The layout of the packet body.
    pub open spec fn shape_model() -> ShapeModel {
        ShapeModel::Record(seq![
            ShapeModel::Str,
            ShapeModel::Str,
            ShapeModel::Bool,
            ShapeModel::Str,
            ShapeModel::U32,
            ShapeModel::U8,
            ShapeModel::U32Max(MAX_DAY),
            ShapeModel::U16,
            ShapeModel::U16,
        ])
    }

    /// The packet as a value of its layout.
    pub open spec fn model(&self) -> ValueModel {
        ValueModel::Record(seq![
            ValueModel::Str(self.server_name@),
            ValueModel::Str(self.openttd_version@),
            ValueModel::Bool(self.is_dedicated),
            ValueModel::Str(self.map_name@),
            ValueModel::U32(self.map_seed),
            ValueModel::U8(self.map_landscape),
            ValueModel::U32(self.map_start_date.days()),
            ValueModel::U16(self.map_width),
            ValueModel::U16(self.map_height),
        ])
    }

    /// The layout of the packet body.
    pub fn shape() -> (r: Shape)
        ensures
            r@ == Self::shape_model(),
    {
        let r = Shape::Record(vec![
            Shape::Str,
            Shape::Str,
            Shape::Bool,
            Shape::Str,
            Shape::U32,
            Shape::U8,
            Shape::U32Max(MAX_DAY),
            Shape::U16,
            Shape::U16,
        ]);
        assert(shape_views(r->Record_0@) =~= Self::shape_model()->Record_0);
        r
    }

    /// The packet that a value of its layout stands for.
    pub fn from_value(v: &Value) -> (r: Self)
        requires
            fits(v@, Self::shape_model()),
        ensures
            r.model() == v@,
    {
        let fs = record_fields(v);
        proof {
            lemma_fields_fit_index(value_views(fs@), Self::shape_model()->Record_0);
        }
        let r = Welcome {
            server_name: get_string(fs, 0),
            openttd_version: get_string(fs, 1),
            is_dedicated: get_bool(fs, 2),
            map_name: get_string(fs, 3),
            map_seed: get_u32(fs, 4),
            map_landscape: get_u8(fs, 5),
            map_start_date: get_date(fs, 6),
            map_width: get_u16(fs, 7),
            map_height: get_u16(fs, 8),
        };
        assert(r.model()->Record_0 =~= value_views(fs@));
        r
    }
}

/// Send the current date of the game.
#[derive(Debug, Clone, PartialEq, Eq)]
pub struct Date {
    /// Current game date.
    pub date: GameDate,
}

impl Date {
    /// The layout of the packet body.
    pub open spec fn shape_model() -> ShapeModel {
        ShapeModel::Record(seq![ShapeModel::U32Max(MAX_DAY)])
    }

    /// The packet as a value of its layout.
    pub open spec fn model(&self) -> ValueModel {
        ValueModel::Record(seq![ValueModel::U32(self.date.days())])
    }

    /// The layout of the packet body.
    pub fn shape() -> (r: Shape)
        ensures
            r@ == Self::shape_model(),
    {
        let r = Shape::Record(vec![Shape::U32Max(MAX_DAY)]);
        assert(shape_views(r->Record_0@) =~= Self::shape_model()->Record_0);
        r
    }

    /// The packet that a value of its layout stands for.
    pub fn from_value(v: &Value) -> (r: Self)
        requires
            fits(v@, Self::shape_model()),
        ensures
            r.model() == v@,
    {
        let fs = record_fields(v);
        proof {
            lemma_fields_fit_index(value_views(fs@), Self::shape_model()->Record_0);
        }
        let r = Date {
            date: get_date(fs, 0),
        };
        assert(r.model()->Record_0 =~= value_views(fs@));
        r
    }
}

/// Notification of a new client.
#[derive(Debug, Clone, PartialEq, Eq)]
pub struct ClientJoin {
    /// ID of the new client.
    pub id: u32,
}

impl ClientJoin {
    /// The layout of the packet body.
    pub open spec fn shape_model() -> ShapeModel {
        ShapeModel::Record(seq![ShapeModel::U32])
    }

    /// The packet as a value of its layout.
    pub open spec fn model(&self) -> ValueModel {
        ValueModel::Record(seq![ValueModel::U32(self.id)])
    }

    /// The layout of the packet body.
    pub fn shape() -> (r: Shape)
        ensures
            r@ == Self::shape_model(),
    {
        let r = Shape::Record(vec![Shape::U32]);
        assert(shape_views(r->Record_0@) =~= Self::shape_model()->Record_0);
        r
    }

    /// The packet that a value of its layout stands for.
    pub fn from_value(v: &Value) -> (r: Self)
        requires
            fits(v@, Self::shape_model()),
        ensures
            r.model() == v@,
    {
        let fs = record_fields(v);
        proof {
            lemma_fields_fit_index(value_views(fs@), Self::shape_model()->Record_0);
        }
        let r = ClientJoin {
            id: get_u32(fs, 0),
        };
        assert(r.model()->Record_0 =~= value_views(fs@));
        r
    }
}

/// Client information of a specific client.
#[derive(Debug, Clone, PartialEq, Eq)]
pub struct ClientInfo {
    /// ID of the client.
    pub id: u32,
    /// Network address of the client.
    pub address: String,
    /// Name of the client.
    pub name: String,
    /// Language of the client.
    pub language: u8,
    /// Date the client joined the game.
    pub date_joined: GameDate,
    /// ID of the company the client is playing as (255 for spectators).
    pub company_id: u8,
}

impl ClientInfo {
    /// The layout of the packet body.
    pub open spec fn shape_model() -> ShapeModel {
        ShapeModel::Record(seq![
            ShapeModel::U32,
            ShapeModel::Str,
            ShapeModel::Str,
            ShapeModel::U8,
            ShapeModel::U32Max(MAX_DAY),
            ShapeModel::U8,
        ])
    }

    /// The packet as a value of its layout.
    pub open spec fn model(&self) -> ValueModel {
        ValueModel::Record(seq![
            ValueModel::U32(self.id),
            ValueModel::Str(self.address@),
            ValueModel::Str(self.name@),
            ValueModel::U8(self.language),
            ValueModel::U32(self.date_joined.days()),
            ValueModel::U8(self.company_id),
        ])
    }

    /// The layout of the packet body.
    pub fn shape() -> (r: Shape)
        ensures
            r@ == Self::shape_model(),
    {
        let r = Shape::Record(vec![
            Shape::U32,
            Shape::Str,
            Shape::Str,
            Shape::U8,
            Shape::U32Max(MAX_DAY),
            Shape::U8,
        ]);
        assert(shape_views(r->Record_0@) =~= Self::shape_model()->Record_0);
        r
    }

    /// The packet that a value of its layout stands for.
    pub fn from_value(v: &Value) -> (r: Self)
        requires
            fits(v@, Self::shape_model()),
        ensures
            r.model() == v@,
    {
        let fs = record_fields(v);
        proof {
            lemma_fields_fit_index(value_views(fs@), Self::shape_model()->Record_0);
        }
        let r = ClientInfo {
            id: get_u32(fs, 0),
            address: get_string(fs, 1),
            name: get_string(fs, 2),
            language: get_u8(fs, 3),
            date_joined: get_date(fs, 4),
            company_id: get_u8(fs, 5),
        };
        assert(r.model()->Record_0 =~= value_views(fs@));
        r
    }
}

/// Client update details on a specific client (e.g. after rename or move).
#[derive(Debug, Clone, PartialEq, Eq)]
pub struct ClientUpdate {
    /// ID of the client.
    pub id: u32,
    /// Name of the client.
    pub name: String,
    /// ID of the company the client is playing as (255 for spectators).
    pub company_id: u8,
}

impl ClientUpdate {
    /// The layout of the packet body.
    pub open spec fn shape_model() -> ShapeModel {
        ShapeModel::Record(seq![ShapeModel::U32, ShapeModel::Str, ShapeModel::U8])
    }

    /// The packet as a value of its layout.
    pub open spec fn model(&self) -> ValueModel {
        ValueModel::Record(seq![
            ValueModel::U32(self.id),
            ValueModel::Str(self.name@),
            ValueModel::U8(self.company_id),
        ])
    }

    /// The layout of the packet body.
    pub fn shape() -> (r: Shape)
        ensures
            r@ == Self::shape_model(),
    {
        let r = Shape::Record(vec![Shape::U32, Shape::Str, Shape::U8]);
        assert(shape_views(r->Record_0@) =~= Self::shape_model()->Record_0);
        r
    }

    /// The packet that a value of its layout stands for.
    pub fn from_value(v: &Value) -> (r: Self)
        requires
            fits(v@, Self::shape_model()),
        ensures
            r.model() == v@,
    {
        let fs = record_fields(v);
        proof {
            lemma_fields_fit_index(value_views(fs@), Self::shape_model()->Record_0);
        }
        let r = ClientUpdate {
            id: get_u32(fs, 0),
            name: get_string(fs, 1),
            company_id: get_u8(fs, 2),
        };
        assert(r.model()->Record_0 =~= value_views(fs@));
        r
    }
}

/// Notification about a client leaving the game.
#[derive(Debug, Clone, PartialEq, Eq)]
pub struct ClientQuit {
    /// ID of the client that just left.
    pub id: u32,
}

impl ClientQuit {
    /// The layout of the packet body.
    pub open spec fn shape_model() -> ShapeModel {
        ShapeModel::Record(seq![ShapeModel::U32])
    }

    /// The packet as a value of its layout.
    pub open spec fn model(&self) -> ValueModel {
        ValueModel::Record(seq![ValueModel::U32(self.id)])
    }

    /// The layout of the packet body.
    pub fn shape() -> (r: Shape)
        ensures
            r@ == Self::shape_model(),
    {
        let r = Shape::Record(vec![Shape::U32]);
        assert(shape_views(r->Record_0@) =~= Self::shape_model()->Record_0);
        r
    }

    /// The packet that a value of its layout stands for.
    pub fn from_value(v: &Value) -> (r: Self)
        requires
            fits(v@, Self::shape_model()),
        ensures
            r.model() == v@,
    {
        let fs = record_fields(v);
        proof {
            lemma_fields_fit_index(value_views(fs@), Self::shape_model()->Record_0);
        }
        let r = ClientQuit {
            id: get_u32(fs, 0),
        };
        assert(r.model()->Record_0 =~= value_views(fs@));
        r
    }
}

/// Notification about a client error (and thus the clients disconnection).
#[derive(Debug, Clone, PartialEq, Eq)]
pub struct ClientError {
    /// ID of the client that made the error.
    pub id: u32,
    /// Error the client made.
    pub error: u8,
}

impl ClientError {
    /// The layout of the packet body.
    pub open spec fn shape_model() -> ShapeModel {
        ShapeModel::Record(seq![ShapeModel::U32, ShapeModel::U8])
    }

    /// The packet as a value of its layout.
    pub open spec fn model(&self) -> ValueModel {
        ValueModel::Record(seq![ValueModel::U32(self.id), ValueModel::U8(self.error)])
    }

    /// The layout of the packet body.
    pub fn shape() -> (r: Shape)
        ensures
            r@ == Self::shape_model(),
    {
        let r = Shape::Record(vec![Shape::U32, Shape::U8]);
        assert(shape_views(r->Record_0@) =~= Self::shape_model()->Record_0);
        r
    }

    /// The packet that a value of its layout stands for.
    pub fn from_value(v: &Value) -> (r: Self)
        requires
            fits(v@, Self::shape_model()),
        ensures
            r.model() == v@,
    {
        let fs = record_fields(v);
        proof {
            lemma_fields_fit_index(value_views(fs@), Self::shape_model()->Record_0);
        }
        let r = ClientError {
            id: get_u32(fs, 0),
            error: get_u8(fs, 1),
        };
        assert(r.model()->Record_0 =~= value_views(fs@));
        r
    }
}

/// Notification of a new company.
#[derive(Debug, Clone, PartialEq, Eq)]
pub struct CompanyNew {
    /// ID of the new company.
    pub id: u32,
}

impl CompanyNew {
    /// The layout of the packet body.
    pub open spec fn shape_model() -> ShapeModel {
        ShapeModel::Record(seq![ShapeModel::U32])
    }

    /// The packet as a value of its layout.
    pub open spec fn model(&self) -> ValueModel {
        ValueModel::Record(seq![ValueModel::U32(self.id)])
    }

    /// The layout of the packet body.
    pub fn shape() -> (r: Shape)
        ensures
            r@ == Self::shape_model(),
    {
        let r = Shape::Record(vec![Shape::U32]);
        assert(shape_views(r->Record_0@) =~= Self::shape_model()->Record_0);
        r
    }

    /// The packet that a value of its layout stands for.
    pub fn from_value(v: &Value) -> (r: Self)
        requires
            fits(v@, Self::shape_model()),
        ensures
            r.model() == v@,
    {
        let fs = record_fields(v);
        proof {
            lemma_fields_fit_index(value_views(fs@), Self::shape_model()->Record_0);
        }
        let r = CompanyNew {
            id: get_u32(fs, 0),
        };
        assert(r.model()->Record_0 =~= value_views(fs@));
        r
    }
}

/// Company information on a specific company.
#[derive(Debug, Clone, PartialEq, Eq)]
pub struct CompanyInfo {
    /// ID of the company.
    pub id: u8,
    /// Name of the company.
    pub name: String,
    /// Name of the companies manager.
    pub manager: String,
    /// Main company colour.
    pub color: u8,
    /// Company is password protected.
    pub password_protected: bool,
    /// Year the company was inaugurated.
    pub inaugurated_year: u32,
    /// Company is an AI.
    pub ai: bool,
}

impl CompanyInfo {
    /// The layout of the packet body.
    pub open spec fn shape_model() -> ShapeModel {
        ShapeModel::Record(seq![
            ShapeModel::U8,
            ShapeModel::Str,
            ShapeModel::Str,
            ShapeModel::U8,
            ShapeModel::Bool,
            ShapeModel::U32,
            ShapeModel::Bool,
        ])
    }

    /// The packet as a value of its layout.
    pub open spec fn model(&self) -> ValueModel {
        ValueModel::Record(seq![
            ValueModel::U8(self.id),
            ValueModel::Str(self.name@),
            ValueModel::Str(self.manager@),
            ValueModel::U8(self.color),
            ValueModel::Bool(self.password_protected),
            ValueModel::U32(self.inaugurated_year),
            ValueModel::Bool(self.ai),
        ])
    }

    /// The layout of the packet body.
    pub fn shape() -> (r: Shape)
        ensures
            r@ == Self::shape_model(),
    {
        let r = Shape::Record(vec![
            Shape::U8,
            Shape::Str,
            Shape::Str,
            Shape::U8,
            Shape::Bool,
            Shape::U32,
            Shape::Bool,
        ]);
        assert(shape_views(r->Record_0@) =~= Self::shape_model()->Record_0);
        r
    }

    /// The packet that a value of its layout stands for.
    pub fn from_value(v: &Value) -> (r: Self)
        requires
            fits(v@, Self::shape_model()),
        ensures
            r.model() == v@,
    {
        let fs = record_fields(v);
        proof {
            lemma_fields_fit_index(value_views(fs@), Self::shape_model()->Record_0);
        }
        let r = CompanyInfo {
            id: get_u8(fs, 0),
            name: get_string(fs, 1),
            manager: get_string(fs, 2),
            color: get_u8(fs, 3),
            password_protected: get_bool(fs, 4),
            inaugurated_year: get_u32(fs, 5),
            ai: get_bool(fs, 6),
        };
        assert(r.model()->Record_0 =~= value_views(fs@));
        r
    }
}

/// Company information of a specific company.
#[derive(Debug, Clone, PartialEq, Eq)]
pub struct CompanyUpdate {
    /// ID of the company.
    pub id: u8,
    /// Name of the company.
    pub name: String,
    /// Name of the companies manager.
    pub manager: String,
    /// Main company colour.
    pub color: u8,
    /// Company is password protected.
    pub password_protected: bool,
    /// Quarters of bankruptcy.
    pub quarters_bankrupt: u8,
    /// Owner of share 1.
    pub owner_share_1: u8,
    /// Owner of share 2.
    pub owner_share_2: u8,
    /// Owner of share 3.
    pub owner_share_3: u8,
    /// Owner of share 4.
    pub owner_share_4: u8,
}

impl CompanyUpdate {
    /// The layout of the packet body.
    pub open spec fn shape_model() -> ShapeModel {
        ShapeModel::Record(seq![
            ShapeModel::U8,
            ShapeModel::Str,
            ShapeModel::Str,
            ShapeModel::U8,
            ShapeModel::Bool,
            ShapeModel::U8,
            ShapeModel::U8,
            ShapeModel::U8,
            ShapeModel::U8,
            ShapeModel::U8,
        ])
    }

    /// The packet as a value of its layout.
    pub open spec fn model(&self) -> ValueModel {
        ValueModel::Record(seq![
            ValueModel::U8(self.id),
            ValueModel::Str(self.name@),
            ValueModel::Str(self.manager@),
            ValueModel::U8(self.color),
            ValueModel::Bool(self.password_protected),
            ValueModel::U8(self.quarters_bankrupt),
            ValueModel::U8(self.owner_share_1),
            ValueModel::U8(self.owner_share_2),
            ValueModel::U8(self.owner_share_3),
            ValueModel::U8(self.owner_share_4),
        ])
    }

    /// The layout of the packet body.
    pub fn shape() -> (r: Shape)
        ensures
            r@ == Self::shape_model(),
    {
        let r = Shape::Record(vec![
            Shape::U8,
            Shape::Str,
            Shape::Str,
            Shape::U8,
            Shape::Bool,
            Shape::U8,
            Shape::U8,
            Shape::U8,
            Shape::U8,
            Shape::U8,
        ]);
        assert(shape_views(r->Record_0@) =~= Self::shape_model()->Record_0);
        r
    }

    /// The packet that a value of its layout stands for.
    pub fn from_value(v: &Value) -> (r: Self)
        requires
            fits(v@, Self::shape_model()),
        ensures
            r.model() == v@,
    {
        let fs = record_fields(v);
        proof {
            lemma_fields_fit_index(value_views(fs@), Self::shape_model()->Record_0);
        }
        let r = CompanyUpdate {
            id: get_u8(fs, 0),
            name: get_string(fs, 1),
            manager: get_string(fs, 2),
            color: get_u8(fs, 3),
            password_protected: get_bool(fs, 4),
            quarters_bankrupt: get_u8(fs, 5),
            owner_share_1: get_u8(fs, 6),
            owner_share_2: get_u8(fs, 7),
            owner_share_3: get_u8(fs, 8),
            owner_share_4: get_u8(fs, 9),
        };
        assert(r.model()->Record_0 =~= value_views(fs@));
        r
    }
}

/// Notification about a removed company (e.g. due to bankruptcy).
#[derive(Debug, Clone, PartialEq, Eq)]
pub struct CompanyRemove {
    /// ID of the company.
    pub id: u8,
    /// Reason for being removed.
    pub reason: u8,
}

impl CompanyRemove {
    /// The layout of the packet body.
    pub open spec fn shape_model() -> ShapeModel {
        ShapeModel::Record(seq![ShapeModel::U8, ShapeModel::U8])
    }

    /// The packet as a value of its layout.
    pub open spec fn model(&self) -> ValueModel {
        ValueModel::Record(seq![ValueModel::U8(self.id), ValueModel::U8(self.reason)])
    }

    /// The layout of the packet body.
    pub fn shape() -> (r: Shape)
        ensures
            r@ == Self::shape_model(),
    {
        let r = Shape::Record(vec![Shape::U8, Shape::U8]);
        assert(shape_views(r->Record_0@) =~= Self::shape_model()->Record_0);
        r
    }

    /// The packet that a value of its layout stands for.
    pub fn from_value(v: &Value) -> (r: Self)
        requires
            fits(v@, Self::shape_model()),
        ensures
            r.model() == v@,
    {
        let fs = record_fields(v);
        proof {
            lemma_fields_fit_index(value_views(fs@), Self::shape_model()->Record_0);
        }
        let r = CompanyRemove {
            id: get_u8(fs, 0),
            reason: get_u8(fs, 1),
        };
        assert(r.model()->Record_0 =~= value_views(fs@));
        r
    }
}

/// Economy update of a specific company.
#[derive(Debug, Clone, PartialEq, Eq)]
pub struct CompanyEconomy {
    /// ID of the company.
    pub id: u8,
    /// Money.
    pub money: u64,
    /// Loan.
    pub loan: u64,
    /// Income.
    pub income: i64,
    /// Delivered cargo (this quarter).
    pub delivered_cargo: u16,
    /// Company value (last quarter).
    pub company_value_last: u64,
    /// Performance (last quarter).
    pub performance_last: u16,
    /// Delivered cargo (last quarter).
    pub delivered_cargo_last: u16,
    /// Company value (previous quarter).
    pub company_value_previous: u64,
    /// Performance (previous quarter).
    pub performance_previous: u16,
    /// Delivered cargo (previous quarter).
    pub delivered_previous: u16,
}

impl CompanyEconomy {
    /// The layout of the packet body.
    pub open spec fn shape_model() -> ShapeModel {
        ShapeModel::Record(seq![
            ShapeModel::U8,
            ShapeModel::U64,
            ShapeModel::U64,
            ShapeModel::I64,
            ShapeModel::U16,
            ShapeModel::U64,
            ShapeModel::U16,
            ShapeModel::U16,
            ShapeModel::U64,
            ShapeModel::U16,
            ShapeModel::U16,
        ])
    }

    /// The packet as a value of its layout.
    pub open spec fn model(&self) -> ValueModel {
        ValueModel::Record(seq![
            ValueModel::U8(self.id),
            ValueModel::U64(self.money),
            ValueModel::U64(self.loan),
            ValueModel::I64(self.income),
            ValueModel::U16(self.delivered_cargo),
            ValueModel::U64(self.company_value_last),
            ValueModel::U16(self.performance_last),
            ValueModel::U16(self.delivered_cargo_last),
            ValueModel::U64(self.company_value_previous),
            ValueModel::U16(self.performance_previous),
            ValueModel::U16(self.delivered_previous),
        ])
    }

    /// The layout of the packet body.
    pub fn shape() -> (r: Shape)
        ensures
            r@ == Self::shape_model(),
    {
        let r = Shape::Record(vec![
            Shape::U8,
            Shape::U64,
            Shape::U64,
            Shape::I64,
            Shape::U16,
            Shape::U64,
            Shape::U16,
            Shape::U16,
            Shape::U64,
            Shape::U16,
            Shape::U16,
        ]);
        assert(shape_views(r->Record_0@) =~= Self::shape_model()->Record_0);
        r
    }

    /// The packet that a value of its layout stands for.
    pub fn from_value(v: &Value) -> (r: Self)
        requires
            fits(v@, Self::shape_model()),
        ensures
            r.model() == v@,
    {
        let fs = record_fields(v);
        proof {
            lemma_fields_fit_index(value_views(fs@), Self::shape_model()->Record_0);
        }
        let r = CompanyEconomy {
            id: get_u8(fs, 0),
            money: get_u64(fs, 1),
            loan: get_u64(fs, 2),
            income: get_i64(fs, 3),
            delivered_cargo: get_u16(fs, 4),
            company_value_last: get_u64(fs, 5),
            performance_last: get_u16(fs, 6),
            delivered_cargo_last: get_u16(fs, 7),
            company_value_previous: get_u64(fs, 8),
            performance_previous: get_u16(fs, 9),
            delivered_previous: get_u16(fs, 10),
        };
        assert(r.model()->Record_0 =~= value_views(fs@));
        r
    }
}

/// Company statistics on stations and vehicles.
#[derive(Debug, Clone, PartialEq, Eq)]
pub struct CompanyStats {
    /// ID of the company.
    pub id: u8,
    /// Number of trains.
    pub trains: u16,
    /// Number of lorries.
    pub lorries: u16,
    /// Number of busses.
    pub busses: u16,
    /// Number of planes.
    pub planes: u16,
    /// Number of ships.
    pub ships: u16,
    /// Number of train stations.
    pub train_stations: u16,
    /// Number of lorry stations.
    pub lorry_stations: u16,
    /// Number of bus stops.
    pub bus_stops: u16,
    /// Number of airports and heliports.
    pub airports_and_heliports: u16,
    /// Number of harbours.
    pub harbours: u16,
}

impl CompanyStats {
    /// The layout of the packet body.
    pub open spec fn shape_model() -> ShapeModel {
        ShapeModel::Record(seq![
            ShapeModel::U8,
            ShapeModel::U16,
            ShapeModel::U16,
            ShapeModel::U16,
            ShapeModel::U16,
            ShapeModel::U16,
            ShapeModel::U16,
            ShapeModel::U16,
            ShapeModel::U16,
            ShapeModel::U16,
            ShapeModel::U16,
        ])
    }

    /// The packet as a value of its layout.
    pub open spec fn model(&self) -> ValueModel {
        ValueModel::Record(seq![
            ValueModel::U8(self.id),
            ValueModel::U16(self.trains),
            ValueModel::U16(self.lorries),
            ValueModel::U16(self.busses),
            ValueModel::U16(self.planes),
            ValueModel::U16(self.ships),
            ValueModel::U16(self.train_stations),
            ValueModel::U16(self.lorry_stations),
            ValueModel::U16(self.bus_stops),
            ValueModel::U16(self.airports_and_heliports),
            ValueModel::U16(self.harbours),
        ])
    }

    /// The layout of the packet body.
    pub fn shape() -> (r: Shape)
        ensures
            r@ == Self::shape_model(),
    {
        let r = Shape::Record(vec![
            Shape::U8,
            Shape::U16,
            Shape::U16,
            Shape::U16,
            Shape::U16,
            Shape::U16,
            Shape::U16,
            Shape::U16,
            Shape::U16,
            Shape::U16,
            Shape::U16,
        ]);
        assert(shape_views(r->Record_0@) =~= Self::shape_model()->Record_0);
        r
    }

    /// The packet that a value of its layout stands for.
    pub fn from_value(v: &Value) -> (r: Self)
        requires
            fits(v@, Self::shape_model()),
        ensures
            r.model() == v@,
    {
        let fs = record_fields(v);
        proof {
            lemma_fields_fit_index(value_views(fs@), Self::shape_model()->Record_0);
        }
        let r = CompanyStats {
            id: get_u8(fs, 0),
            trains: get_u16(fs, 1),
            lorries: get_u16(fs, 2),
            busses: get_u16(fs, 3),
            planes: get_u16(fs, 4),
            ships: get_u16(fs, 5),
            train_stations: get_u16(fs, 6),
            lorry_stations: get_u16(fs, 7),
            bus_stops: get_u16(fs, 8),
            airports_and_heliports: get_u16(fs, 9),
            harbours: get_u16(fs, 10),
        };
        assert(r.model()->Record_0 =~= value_views(fs@));
        r
    }
}

/// Send chat from the game into the admin network.
#[derive(Debug, Clone, PartialEq, Eq)]
pub struct Chat {
    /// Action such as NETWORK_ACTION_CHAT_CLIENT.
    pub action: u8,
    /// Destination type such as DESTTYPE_BROADCAST.
    pub destination: u8,
    /// ID of the client who sent this message.
    pub client: u32,
    /// Message.
    pub message: String,
    /// Money (only when it is a 'give money' action).
    pub money: Option<u64>,
}

impl Chat {
    /// The layout of the packet body.
    pub open spec fn shape_model() -> ShapeModel {
        ShapeModel::Record(seq![
            ShapeModel::U8,
            ShapeModel::U8,
            ShapeModel::U32,
            ShapeModel::Str,
            ShapeModel::Opt(Box::new(ShapeModel::U64)),
        ])
    }

    /// The packet as a value of its layout.
    pub open spec fn model(&self) -> ValueModel {
        ValueModel::Record(seq![
            ValueModel::U8(self.action),
            ValueModel::U8(self.destination),
            ValueModel::U32(self.client),
            ValueModel::Str(self.message@),
            opt_u64_model(self.money),
        ])
    }

    /// The layout of the packet body.
    pub fn shape() -> (r: Shape)
        ensures
            r@ == Self::shape_model(),
    {
        assert(Shape::U64@ == ShapeModel::U64);
        let r = Shape::Record(vec![
            Shape::U8,
            Shape::U8,
            Shape::U32,
            Shape::Str,
            Shape::Opt(Box::new(Shape::U64)),
        ]);
        assert(shape_views(r->Record_0@) =~= Self::shape_model()->Record_0);
        r
    }

    /// The packet that a value of its layout stands for.
    pub fn from_value(v: &Value) -> (r: Self)
        requires
            fits(v@, Self::shape_model()),
        ensures
            r.model() == v@,
    {
        let fs = record_fields(v);
        proof {
            lemma_fields_fit_index(value_views(fs@), Self::shape_model()->Record_0);
        }
        let r = Chat {
            action: get_u8(fs, 0),
            destination: get_u8(fs, 1),
            client: get_u32(fs, 2),
            message: get_string(fs, 3),
            money: get_opt_u64(fs, 4),
        };
        assert(r.model()->Record_0 =~= value_views(fs@));
        r
    }
}

/// Result of an rcon command.
#[derive(Debug, Clone, PartialEq, Eq)]
pub struct Rcon {
    /// Colour as it would be used on the server or a client.
    pub color: u16,
    /// Output of the executed command.
    pub output: String,
}

impl Rcon {
    /// The layout of the packet body.
    pub open spec fn shape_model() -> ShapeModel {
        ShapeModel::Record(seq![ShapeModel::U16, ShapeModel::Str])
    }

    /// The packet as a value of its layout.
    pub open spec fn model(&self) -> ValueModel {
        ValueModel::Record(seq![ValueModel::U16(self.color), ValueModel::Str(self.output@)])
    }

    /// The layout of the packet body.
    pub fn shape() -> (r: Shape)
        ensures
            r@ == Self::shape_model(),
    {
        let r = Shape::Record(vec![Shape::U16, Shape::Str]);
        assert(shape_views(r->Record_0@) =~= Self::shape_model()->Record_0);
        r
    }

    /// The packet that a value of its layout stands for.
    pub fn from_value(v: &Value) -> (r: Self)
        requires
            fits(v@, Self::shape_model()),
        ensures
            r.model() == v@,
    {
        let fs = record_fields(v);
        proof {
            lemma_fields_fit_index(value_views(fs@), Self::shape_model()->Record_0);
        }
        let r = Rcon {
            color: get_u16(fs, 0),
            output: get_string(fs, 1),
        };
        assert(r.model()->Record_0 =~= value_views(fs@));
        r
    }
}

/// Send what would be printed on the server's console also into the admin network.
#[derive(Debug, Clone, PartialEq, Eq)]
pub struct Console {
    /// The origin of the text, e.g. "console" for console, or "net" for
    /// network related (debug) messages.
    pub origin: String,
    /// Text as found on the console of the server.
    pub text: String,
}

impl Console {
    /// The layout of the packet body.
    pub open spec fn shape_model() -> ShapeModel {
        ShapeModel::Record(seq![ShapeModel::Str, ShapeModel::Str])
    }

    /// The packet as a value of its layout.
    pub open spec fn model(&self) -> ValueModel {
        ValueModel::Record(seq![ValueModel::Str(self.origin@), ValueModel::Str(self.text@)])
    }

    /// The layout of the packet body.
    pub fn shape() -> (r: Shape)
        ensures
            r@ == Self::shape_model(),
    {
        let r = Shape::Record(vec![Shape::Str, Shape::Str]);
        assert(shape_views(r->Record_0@) =~= Self::shape_model()->Record_0);
        r
    }

    /// The packet that a value of its layout stands for.
    pub fn from_value(v: &Value) -> (r: Self)
        requires
            fits(v@, Self::shape_model()),
        ensures
            r.model() == v@,
    {
        let fs = record_fields(v);
        proof {
            lemma_fields_fit_index(value_views(fs@), Self::shape_model()->Record_0);
        }
        let r = Console {
            origin: get_string(fs, 0),
            text: get_string(fs, 1),
        };
        assert(r.model()->Record_0 =~= value_views(fs@));
        r
    }
}

/// The name of one DoCommand.
#[derive(Debug, Clone, PartialEq, Eq)]
pub struct CmdName {
    /// ID of the DoCommand.
    pub id: u16,
    /// Name of DoCommand.
    pub name: String,
}

impl CmdName {
    /// The layout of the packet body.
    pub open spec fn shape_model() -> ShapeModel {
        ShapeModel::Record(seq![ShapeModel::U16, ShapeModel::Str])
    }

    /// The packet as a value of its layout.
    pub open spec fn model(&self) -> ValueModel {
        ValueModel::Record(seq![ValueModel::U16(self.id), ValueModel::Str(self.name@)])
    }

    /// The layout of the packet body.
    pub fn shape() -> (r: Shape)
        ensures
            r@ == Self::shape_model(),
    {
        let r = Shape::Record(vec![Shape::U16, Shape::Str]);
        assert(shape_views(r->Record_0@) =~= Self::shape_model()->Record_0);
        r
    }

    /// The packet that a value of its layout stands for.
    pub fn from_value(v: &Value) -> (r: Self)
        requires
            fits(v@, Self::shape_model()),
        ensures
            r.model() == v@,
    {
        let fs = record_fields(v);
        proof {
            lemma_fields_fit_index(value_views(fs@), Self::shape_model()->Record_0);
        }
        let r = CmdName {
            id: get_u16(fs, 0),
            name: get_string(fs, 1),
        };
        assert(r.model()->Record_0 =~= value_views(fs@));
        r
    }
}

/// DoCommand names, sent upon request only; several of these packets can follow each other.
#[derive(Debug, Clone, PartialEq, Eq)]
pub struct CmdNames {
    /// The names.
    pub names: Vec<CmdName>,
}

impl CmdNames {
    /// The layout of the packet body.
    pub open spec fn shape_model() -> ShapeModel {
        ShapeModel::Record(seq![ShapeModel::List(Box::new(CmdName::shape_model()))])
    }

    /// The packet as a value of its layout.
    pub open spec fn model(&self) -> ValueModel {
        ValueModel::Record(seq![ValueModel::List(self.names@.map_values(|e: CmdName| e.model()))])
    }

    /// The layout of the packet body.
    pub fn shape() -> (r: Shape)
        ensures
            r@ == Self::shape_model(),
    {
        let r = Shape::Record(vec![Shape::List(Box::new(CmdName::shape()))]);
        assert(shape_views(r->Record_0@) =~= Self::shape_model()->Record_0);
        r
    }

    /// The packet that a value of its layout stands for.
    pub fn from_value(v: &Value) -> (r: Self)
        requires
            fits(v@, Self::shape_model()),
        ensures
            r.model() == v@,
    {
        let fs = record_fields(v);
        proof {
            lemma_fields_fit_index(value_views(fs@), Self::shape_model()->Record_0);
        }
        let r = CmdNames {
            names: get_cmd_names(fs, 0),
        };
        assert(r.model()->Record_0 =~= value_views(fs@));
        r
    }
}

/// A copy of an incoming command packet, for logging purposes only.
#[derive(Debug, Clone, PartialEq, Eq)]
pub struct CmdLogging {
    /// ID of the client sending the command.
    pub client_id: u32,
    /// ID of the company (0..MAX_COMPANIES-1).
    pub company_id: u8,
    /// ID of the command.
    pub command_id: u16,
    /// First parameter of the command.
    pub p1: u32,
    /// Second parameter of the command.
    pub p2: u32,
    /// Tile where this is taking place.
    pub tile: u32,
    /// Text passed to the command.
    pub text: String,
    /// Frame of execution.
    pub execution_frame: u32,
}

impl CmdLogging {
    /// The layout of the packet body.
    pub open spec fn shape_model() -> ShapeModel {
        ShapeModel::Record(seq![
            ShapeModel::U32,
            ShapeModel::U8,
            ShapeModel::U16,
            ShapeModel::U32,
            ShapeModel::U32,
            ShapeModel::U32,
            ShapeModel::Str,
            ShapeModel::U32,
        ])
    }

    /// The packet as a value of its layout.
    pub open spec fn model(&self) -> ValueModel {
        ValueModel::Record(seq![
            ValueModel::U32(self.client_id),
            ValueModel::U8(self.company_id),
            ValueModel::U16(self.command_id),
            ValueModel::U32(self.p1),
            ValueModel::U32(self.p2),
            ValueModel::U32(self.tile),
            ValueModel::Str(self.text@),
            ValueModel::U32(self.execution_frame),
        ])
    }

    /// The layout of the packet body.
    pub fn shape() -> (r: Shape)
        ensures
            r@ == Self::shape_model(),
    {
        let r = Shape::Record(vec![
            Shape::U32,
            Shape::U8,
            Shape::U16,
            Shape::U32,
            Shape::U32,
            Shape::U32,
            Shape::Str,
            Shape::U32,
        ]);
        assert(shape_views(r->Record_0@) =~= Self::shape_model()->Record_0);
        r
    }

    /// The packet that a value of its layout stands for.
    pub fn from_value(v: &Value) -> (r: Self)
        requires
            fits(v@, Self::shape_model()),
        ensures
            r.model() == v@,
    {
        let fs = record_fields(v);
        proof {
            lemma_fields_fit_index(value_views(fs@), Self::shape_model()->Record_0);
        }
        let r = CmdLogging {
            client_id: get_u32(fs, 0),
            company_id: get_u8(fs, 1),
            command_id: get_u16(fs, 2),
            p1: get_u32(fs, 3),
            p2: get_u32(fs, 4),
            tile: get_u32(fs, 5),
            text: get_string(fs, 6),
            execution_frame: get_u32(fs, 7),
        };
        assert(r.model()->Record_0 =~= value_views(fs@));
        r
    }
}

/// Send a JSON string to the current active GameScript.
#[derive(Debug, Clone, PartialEq, Eq)]
pub struct Gamescript {
    /// JSON string for the GameScript.
    pub json: String,
}

impl Gamescript {
    /// The layout of the packet body.
    pub open spec fn shape_model() -> ShapeModel {
        ShapeModel::Record(seq![ShapeModel::Str])
    }

    /// The packet as a value of its layout.
    pub open spec fn model(&self) -> ValueModel {
        ValueModel::Record(seq![ValueModel::Str(self.json@)])
    }

    /// The layout of the packet body.
    pub fn shape() -> (r: Shape)
        ensures
            r@ == Self::shape_model(),
    {
        let r = Shape::Record(vec![Shape::Str]);
        assert(shape_views(r->Record_0@) =~= Self::shape_model()->Record_0);
        r
    }

    /// The packet that a value of its layout stands for.
    pub fn from_value(v: &Value) -> (r: Self)
        requires
            fits(v@, Self::shape_model()),
        ensures
            r.model() == v@,
    {
        let fs = record_fields(v);
        proof {
            lemma_fields_fit_index(value_views(fs@), Self::shape_model()->Record_0);
        }
        let r = Gamescript {
            json: get_string(fs, 0),
        };
        assert(r.model()->Record_0 =~= value_views(fs@));
        r
    }
}

/// Notify the admin connection that the rcon command has finished.
#[derive(Debug, Clone, PartialEq, Eq)]
pub struct RconEnd {
    /// The command as requested by the admin connection.
    pub command: String,
}

impl RconEnd {
    /// The layout of the packet body.
    pub open spec fn shape_model() -> ShapeModel {
        ShapeModel::Record(seq![ShapeModel::Str])
    }

    /// The packet as a value of its layout.
    pub open spec fn model(&self) -> ValueModel {
        ValueModel::Record(seq![ValueModel::Str(self.command@)])
    }

    /// The layout of the packet body.
    pub fn shape() -> (r: Shape)
        ensures
            r@ == Self::shape_model(),
    {
        let r = Shape::Record(vec![Shape::Str]);
        assert(shape_views(r->Record_0@) =~= Self::shape_model()->Record_0);
        r
    }

    /// The packet that a value of its layout stands for.
    pub fn from_value(v: &Value) -> (r: Self)
        requires
            fits(v@, Self::shape_model()),
        ensures
            r.model() == v@,
    {
        let fs = record_fields(v);
        proof {
            lemma_fields_fit_index(value_views(fs@), Self::shape_model()->Record_0);
        }
        let r = RconEnd {
            command: get_string(fs, 0),
        };
        assert(r.model()->Record_0 =~= value_views(fs@));
        r
    }
}

/// Send a ping-reply (pong) to the admin that sent us the ping packet.
#[derive(Debug, Clone, PartialEq, Eq)]
pub struct Pong {
    /// Should be the same as read from the admins ping packet.
    pub id: u32,
}

impl Pong {
    /// The layout of the packet body.
    pub open spec fn shape_model() -> ShapeModel {
        ShapeModel::Record(seq![ShapeModel::U32])
    }

    /// The packet as a value of its layout.
    pub open spec fn model(&self) -> ValueModel {
        ValueModel::Record(seq![ValueModel::U32(self.id)])
    }

    /// The layout of the packet body.
    pub fn shape() -> (r: Shape)
        ensures
            r@ == Self::shape_model(),
    {
        let r = Shape::Record(vec![Shape::U32]);
        assert(shape_views(r->Record_0@) =~= Self::shape_model()->Record_0);
        r
    }

    /// The packet that a value of its layout stands for.
    pub fn from_value(v: &Value) -> (r: Self)
        requires
            fits(v@, Self::shape_model()),
        ensures
            r.model() == v@,
    {
        let fs = record_fields(v);
        proof {
            lemma_fields_fit_index(value_views(fs@), Self::shape_model()->Record_0);
        }
        let r = Pong {
            id: get_u32(fs, 0),
        };
        assert(r.model()->Record_0 =~= value_views(fs@));
        r
    }
}

/// A packet sent by the server, by type.
#[derive(Debug, Clone, PartialEq, Eq)]
pub enum Packet {
    /// The server is full (connection gets closed).
    Full,
    /// The source IP address is banned (connection gets closed).
    Banned,
    /// An error was caused by this admin connection (connection gets closed).
    Error(Error),
    /// Inform a just joined admin about the protocol specifics.
    Protocol(Protocol),
    /// Welcome a connected admin to the game.
    Welcome(Welcome),
    /// Notification about a newgame.
    Newgame,
    /// Notification about the server shutting down.
    Shutdown,
    /// Send the current date of the game.
    Date(Date),
    /// Notification of a new client.
    ClientJoin(ClientJoin),
    /// Client information of a specific client.
    ClientInfo(ClientInfo),
    /// Client update details on a specific client (e.g. after rename or move).
    ClientUpdate(ClientUpdate),
    /// Notification about a client leaving the game.
    ClientQuit(ClientQuit),
    /// Notification about a client error (and thus the clients disconnection).
    ClientError(ClientError),
    /// Notification of a new company.
    CompanyNew(CompanyNew),
    /// Company information on a specific company.
    CompanyInfo(CompanyInfo),
    /// Company information of a specific company.
    CompanyUpdate(CompanyUpdate),
    /// Notification about a removed company (e.g. due to bankruptcy).
    CompanyRemove(CompanyRemove),
    /// Economy update of a specific company.
    CompanyEconomy(CompanyEconomy),
    /// Company statistics on stations and vehicles.
    CompanyStats(CompanyStats),
    /// Send chat from the game into the admin network.
    Chat(Chat),
    /// Result of an rcon command.
    Rcon(Rcon),
    /// Send what would be printed on the server's console also into the admin network.
    Console(Console),
    /// DoCommand names.
    CmdNames(CmdNames),
    /// Copies of incoming command packets.
    CmdLogging(CmdLogging),
    /// JSON from the GameScript.
    Gamescript(Gamescript),
    /// Notify the admin connection that the rcon command has finished.
    RconEnd(RconEnd),
    /// Send a ping-reply (pong) to the admin that sent us the ping packet.
    Pong(Pong),
    /// A packet of a type this library does not know, kept as it came.
    UnknownPacket { packet_type: u8, buffer: Vec<u8> },
}

/// The body layout of the server packet type `t`, for the types known.
pub open spec fn tag_shape(t: u8) -> Option<ShapeModel> {
    match t {
        100 => Some(ShapeModel::Record(Seq::empty())),
        101 => Some(ShapeModel::Record(Seq::empty())),
        102 => Some(Error::shape_model()),
        103 => Some(Protocol::shape_model()),
        104 => Some(Welcome::shape_model()),
        105 => Some(ShapeModel::Record(Seq::empty())),
        106 => Some(ShapeModel::Record(Seq::empty())),
        107 => Some(Date::shape_model()),
        108 => Some(ClientJoin::shape_model()),
        109 => Some(ClientInfo::shape_model()),
        110 => Some(ClientUpdate::shape_model()),
        111 => Some(ClientQuit::shape_model()),
        112 => Some(ClientError::shape_model()),
        113 => Some(CompanyNew::shape_model()),
        114 => Some(CompanyInfo::shape_model()),
        115 => Some(CompanyUpdate::shape_model()),
        116 => Some(CompanyRemove::shape_model()),
        117 => Some(CompanyEconomy::shape_model()),
        118 => Some(CompanyStats::shape_model()),
        119 => Some(Chat::shape_model()),
        120 => Some(Rcon::shape_model()),
        121 => Some(Console::shape_model()),
        122 => Some(CmdNames::shape_model()),
        123 => Some(CmdLogging::shape_model()),
        124 => Some(Gamescript::shape_model()),
        125 => Some(RconEnd::shape_model()),
        126 => Some(Pong::shape_model()),
        _ => None,
    }
}

impl Packet {
    /// The type tag of the packet.
    pub open spec fn tag(&self) -> u8 {
        match self {
            Packet::Full => 100,
            Packet::Banned => 101,
            Packet::Error(_) => 102,
            Packet::Protocol(_) => 103,
            Packet::Welcome(_) => 104,
            Packet::Newgame => 105,
            Packet::Shutdown => 106,
            Packet::Date(_) => 107,
            Packet::ClientJoin(_) => 108,
            Packet::ClientInfo(_) => 109,
            Packet::ClientUpdate(_) => 110,
            Packet::ClientQuit(_) => 111,
            Packet::ClientError(_) => 112,
            Packet::CompanyNew(_) => 113,
            Packet::CompanyInfo(_) => 114,
            Packet::CompanyUpdate(_) => 115,
            Packet::CompanyRemove(_) => 116,
            Packet::CompanyEconomy(_) => 117,
            Packet::CompanyStats(_) => 118,
            Packet::Chat(_) => 119,
            Packet::Rcon(_) => 120,
            Packet::Console(_) => 121,
            Packet::CmdNames(_) => 122,
            Packet::CmdLogging(_) => 123,
            Packet::Gamescript(_) => 124,
            Packet::RconEnd(_) => 125,
            Packet::Pong(_) => 126,
            Packet::UnknownPacket { packet_type, .. } => *packet_type,
        }
    }

    /// The packet body as a value of its layout; for an unknown packet,
    /// its bytes.
    pub open spec fn model(&self) -> ValueModel {
        match self {
            Packet::Full => ValueModel::Record(Seq::empty()),
            Packet::Banned => ValueModel::Record(Seq::empty()),
            Packet::Error(p) => p.model(),
            Packet::Protocol(p) => p.model(),
            Packet::Welcome(p) => p.model(),
            Packet::Newgame => ValueModel::Record(Seq::empty()),
            Packet::Shutdown => ValueModel::Record(Seq::empty()),
            Packet::Date(p) => p.model(),
            Packet::ClientJoin(p) => p.model(),
            Packet::ClientInfo(p) => p.model(),
            Packet::ClientUpdate(p) => p.model(),
            Packet::ClientQuit(p) => p.model(),
            Packet::ClientError(p) => p.model(),
            Packet::CompanyNew(p) => p.model(),
            Packet::CompanyInfo(p) => p.model(),
            Packet::CompanyUpdate(p) => p.model(),
            Packet::CompanyRemove(p) => p.model(),
            Packet::CompanyEconomy(p) => p.model(),
            Packet::CompanyStats(p) => p.model(),
            Packet::Chat(p) => p.model(),
            Packet::Rcon(p) => p.model(),
            Packet::Console(p) => p.model(),
            Packet::CmdNames(p) => p.model(),
            Packet::CmdLogging(p) => p.model(),
            Packet::Gamescript(p) => p.model(),
            Packet::RconEnd(p) => p.model(),
            Packet::Pong(p) => p.model(),
            Packet::UnknownPacket { buffer, .. } => ValueModel::List(
                buffer@.map_values(|b: u8| ValueModel::U8(b)),
            ),
        }
    }
}

} // verus!
