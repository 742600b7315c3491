//! Readers of a few server packets from a body buffer, field by field. Bytes
//! after the fields read are left alone, or kept where a packet says so.

use vstd::prelude::*;
use vstd::pervasive::unreached;
use crate::de::{Deserializer, de};
use crate::error::Error;
use crate::laws::{lemma_all_fit_index, lemma_de_fits, lemma_fields_fit_index};
use crate::server_packets::{get_bool, get_string, get_u16, get_u32, get_u8, record_fields};
use crate::value::{
    Shape, ShapeModel, Value, ValueModel, fits, lemma_shape_view_index, lemma_shape_views,
    lemma_value_view_index, lemma_value_views, shape_views, value_views,
};

verus! {

broadcast use {
    lemma_value_views,
    lemma_shape_views,
    lemma_value_view_index,
    lemma_shape_view_index,
};

/// The error a server reports.
#[derive(Debug, Clone, Copy, PartialEq, Eq)]
pub struct ServerError {
    /// The error caused.
    pub network_error_code: u8,
}

impl ServerError {
    /// Reads the error code from the front of `buffer`.
    pub fn from_buffer(buffer: &[u8]) -> (r: Result<ServerError, Error>)
        ensures
            buffer@.len() == 0 ==> r == Err::<ServerError, Error>(Error::UnexpectedEnd),
            buffer@.len() > 0 ==> r == Ok::<ServerError, Error>(
                ServerError { network_error_code: buffer@[0] },
            ),
    {
        if buffer.len() == 0 {
            Err(Error::UnexpectedEnd)
        } else {
            Ok(ServerError { network_error_code: buffer[0] })
        }
    }
}

/// Information on a company, with the owners of its shares.
#[derive(Debug, Clone, PartialEq, Eq)]
pub struct CompanyInfo {
    pub company_index: u8,
    pub company_name: String,
    pub manager_name: String,
    pub colour: u8,
    pub is_ai: bool,
    pub quarters_of_bankruptcy: u8,
    /// The bytes after the fields above.
    pub shareowners: Vec<u8>,
}

impl CompanyInfo {
    /// The layout of the fields before the share owners.
    pub open spec fn head_shape() -> ShapeModel {
        ShapeModel::Record(
            seq![
                ShapeModel::U8,
                ShapeModel::Str,
                ShapeModel::Str,
                ShapeModel::U8,
                ShapeModel::Bool,
                ShapeModel::U8,
            ],
        )
    }

    /// The fields before the share owners, as a value.
    pub open spec fn head_model(&self) -> ValueModel {
        ValueModel::Record(
            seq![
                ValueModel::U8(self.company_index),
                ValueModel::Str(self.company_name@),
                ValueModel::Str(self.manager_name@),
                ValueModel::U8(self.colour),
                ValueModel::Bool(self.is_ai),
                ValueModel::U8(self.quarters_of_bankruptcy),
            ],
        )
    }

    /// Reads the fields in order; the bytes left are the share owners.
    pub fn from_buffer(buffer: &[u8]) -> (r: Result<CompanyInfo, Error>)
        ensures
            match de(Self::head_shape(), buffer@) {
                Ok((v, rest)) => r matches Ok(c) && c.head_model() == v && c.shareowners@ == rest,
                Err(e) => r == Err::<CompanyInfo, Error>(e),
            },
    {
        let shape = Shape::Record(
            vec![Shape::U8, Shape::Str, Shape::Str, Shape::U8, Shape::Bool, Shape::U8],
        );
        assert(shape_views(shape->Record_0@) =~= Self::head_shape()->Record_0);
        let mut d = Deserializer::from_bytes(buffer);
        let v = d.deserialize(&shape)?;
        proof {
            lemma_de_fits(Self::head_shape(), buffer@);
        }
        let fs = record_fields(&v);
        proof {
            lemma_fields_fit_index(value_views(fs@), Self::head_shape()->Record_0);
        }
        let shareowners = d.take_rest();
        let r = CompanyInfo {
            company_index: get_u8(fs, 0),
            company_name: get_string(fs, 1),
            manager_name: get_string(fs, 2),
            colour: get_u8(fs, 3),
            is_ai: get_bool(fs, 4),
            quarters_of_bankruptcy: get_u8(fs, 5),
            shareowners,
        };
        assert(r.head_model()->Record_0 =~= value_views(fs@));
        Ok(r)
    }
}

/// The welcome of a server to a connected admin.
#[derive(Debug, Clone, PartialEq, Eq)]
pub struct ServerWelcome {
    pub server_name: String,
    pub version: String,
    pub dedicated: bool,
    pub map_name: String,
    pub map_seed: u32,
    pub map_landscape: u8,
    pub map_start_date: u32,
    pub map_width: u16,
    pub map_height: u16,
}

impl ServerWelcome {
    /// The layout of the packet's fields.
    pub open spec fn shape_model() -> ShapeModel {
        ShapeModel::Record(
            seq![
                ShapeModel::Str,
                ShapeModel::Str,
                ShapeModel::Bool,
                ShapeModel::Str,
                ShapeModel::U32,
                ShapeModel::U8,
                ShapeModel::U32,
                ShapeModel::U16,
                ShapeModel::U16,
            ],
        )
    }

    /// The packet's fields, as a value.
    pub open spec fn model(&self) -> ValueModel {
        ValueModel::Record(
            seq![
                ValueModel::Str(self.server_name@),
                ValueModel::Str(self.version@),
                ValueModel::Bool(self.dedicated),
                ValueModel::Str(self.map_name@),
                ValueModel::U32(self.map_seed),
                ValueModel::U8(self.map_landscape),
                ValueModel::U32(self.map_start_date),
                ValueModel::U16(self.map_width),
                ValueModel::U16(self.map_height),
            ],
        )
    }

    /// Reads the fields in order from the front of `buffer`.
    pub fn from_buffer(buffer: &[u8]) -> (r: Result<ServerWelcome, Error>)
        ensures
            match de(Self::shape_model(), buffer@) {
                Ok((v, _)) => r matches Ok(w) && w.model() == v,
                Err(e) => r == Err::<ServerWelcome, Error>(e),
            },
    {
        let shape = Shape::Record(
            vec![
                Shape::Str,
                Shape::Str,
                Shape::Bool,
                Shape::Str,
                Shape::U32,
                Shape::U8,
                Shape::U32,
                Shape::U16,
                Shape::U16,
            ],
        );
        assert(shape_views(shape->Record_0@) =~= Self::shape_model()->Record_0);
        let mut d = Deserializer::from_bytes(buffer);
        let v = d.deserialize(&shape)?;
        proof {
            lemma_de_fits(Self::shape_model(), buffer@);
        }
        let fs = record_fields(&v);
        proof {
            lemma_fields_fit_index(value_views(fs@), Self::shape_model()->Record_0);
        }
        let r = ServerWelcome {
            server_name: get_string(fs, 0),
            version: get_string(fs, 1),
            dedicated: get_bool(fs, 2),
            map_name: get_string(fs, 3),
            map_seed: get_u32(fs, 4),
            map_landscape: get_u8(fs, 5),
            map_start_date: get_u32(fs, 6),
            map_width: get_u16(fs, 7),
            map_height: get_u16(fs, 8),
        };
        assert(r.model()->Record_0 =~= value_views(fs@));
        Ok(r)
    }
}

/// The protocol version of a server and the update types it offers.
#[derive(Debug, Clone, PartialEq, Eq)]
pub struct ServerProtocol {
    /// Protocol version.
    pub protocol_version: u8,
    /// Pairs of an update type and the frequencies allowed for it.
    pub packet_types: Vec<(u16, u16)>,
}

/// The layout of one pair of a [`ServerProtocol`].
pub open spec fn pair_shape() -> ShapeModel {
    ShapeModel::Record(seq![ShapeModel::U16, ShapeModel::U16])
}

/// One pair of a [`ServerProtocol`], as a value.
pub open spec fn pair_model(p: (u16, u16)) -> ValueModel {
    ValueModel::Record(seq![ValueModel::U16(p.0), ValueModel::U16(p.1)])
}

impl ServerProtocol {
    /// The layout of the packet's fields.
    pub open spec fn shape_model() -> ShapeModel {
        ShapeModel::Record(seq![ShapeModel::U8, ShapeModel::List(Box::new(pair_shape()))])
    }

    /// The packet's fields, as a value.
    pub open spec fn model(&self) -> ValueModel {
        ValueModel::Record(
            seq![
                ValueModel::U8(self.protocol_version),
                ValueModel::List(self.packet_types@.map_values(|p: (u16, u16)| pair_model(p))),
            ],
        )
    }

    /// Reads the version, then pairs of `u16` while a `true` flag precedes
    /// them.
    pub fn from_buffer(buffer: &[u8]) -> (r: Result<ServerProtocol, Error>)
        ensures
            match de(Self::shape_model(), buffer@) {
                Ok((v, _)) => r matches Ok(p) && p.model() == v,
                Err(e) => r == Err::<ServerProtocol, Error>(e),
            },
    {
        let pair = Shape::Record(vec![Shape::U16, Shape::U16]);
        assert(shape_views(pair->Record_0@) =~= pair_shape()->Record_0);
        assert(pair@ == pair_shape());
        let shape = Shape::Record(vec![Shape::U8, Shape::List(Box::new(pair))]);
        assert(shape_views(shape->Record_0@) =~= Self::shape_model()->Record_0);
        let mut d = Deserializer::from_bytes(buffer);
        let v = d.deserialize(&shape)?;
        proof {
            lemma_de_fits(Self::shape_model(), buffer@);
        }
        let fs = record_fields(&v);
        proof {
            lemma_fields_fit_index(value_views(fs@), Self::shape_model()->Record_0);
        }
        let protocol_version = get_u8(fs, 0);
        assert(value_views(fs@)[1] == fs@[1]@);
        let items = match &fs[1] {
            Value::List(items) => items,
            _ => unreached(),
        };
        let ghost vs = value_views(items@);
        proof {
            lemma_all_fit_index(vs, pair_shape());
        }
        let mut packet_types: Vec<(u16, u16)> = Vec::new();
        let mut j: usize = 0;
        while j < items.len()
            invariant
                j <= items@.len(),
                packet_types@.len() == j,
                vs == value_views(items@),
                forall|k: int| 0 <= k < vs.len() ==> fits(#[trigger] vs[k], pair_shape()),
                packet_types@.map_values(|p: (u16, u16)| pair_model(p)) =~= vs.subrange(
                    0,
                    j as int,
                ),
            decreases items@.len() - j,
        {
            assert(vs[j as int] == items@[j as int]@);
            let ps = record_fields(&items[j]);
            proof {
                lemma_fields_fit_index(value_views(ps@), pair_shape()->Record_0);
            }
            let p = (get_u16(ps, 0), get_u16(ps, 1));
            assert(pair_model(p)->Record_0 =~= value_views(ps@));
            let ghost before = packet_types@;
            packet_types.push(p);
            j = j + 1;
            assert forall|k: int| 0 <= k < j implies packet_types@.map_values(
                |p: (u16, u16)| pair_model(p),
            )[k] == #[trigger] vs[k] by {
                if k < j - 1 {
                    assert(packet_types@[k] == before[k]);
                    assert(before.map_values(|p: (u16, u16)| pair_model(p))[k] == vs.subrange(
                        0,
                        j - 1,
                    )[k]);
                }
            }
            assert(packet_types@.map_values(|p: (u16, u16)| pair_model(p)) =~= vs.subrange(
                0,
                j as int,
            ));
        }
        assert(vs.subrange(0, j as int) =~= vs);
        let r = ServerProtocol { protocol_version, packet_types };
        assert(r.model()->Record_0 =~= value_views(fs@));
        Ok(r)
    }
}

} // verus!
