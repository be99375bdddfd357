use vstd::prelude::*;

use crate::json::{array_models, lemma_array_view, Json, JsonModel};

verus! {

/// One message on the wire: `[join_ref, msg_ref, topic, event, payload]`.
///
/// The three header positions hold whatever the peer sent there; the
/// protocol expects a string or `null`.
#[derive(Debug, Clone, PartialEq)]
pub struct Envelope {
    pub join_ref: Json,
    pub msg_ref: Json,
    pub topic: Json,
    pub event: String,
    pub payload: Json,
}

pub struct EnvelopeModel {
    pub join_ref: JsonModel,
    pub msg_ref: JsonModel,
    pub topic: JsonModel,
    pub event: Seq<char>,
    pub payload: JsonModel,
}

impl View for Envelope {
    type V = EnvelopeModel;

    open spec fn view(&self) -> EnvelopeModel {
        EnvelopeModel {
            join_ref: self.join_ref@,
            msg_ref: self.msg_ref@,
            topic: self.topic@,
            event: self.event@,
            payload: self.payload@,
        }
    }
}

/// Why a structured value is not a frame.
#[derive(Debug, PartialEq, Eq, Structural, Clone, Copy)]
pub enum DecodeError {
    NotAnArray,
    TooShort,
    EventNotString,
}

/// A header position is well formed when it holds a string or `null`.
pub open spec fn is_header(j: JsonModel) -> bool {
    j matches JsonModel::Null || j matches JsonModel::Str(_)
}

/// The five-element array that carries a frame.
pub open spec fn encode_model(e: EnvelopeModel) -> JsonModel {
    JsonModel::Array(seq![e.join_ref, e.msg_ref, e.topic, JsonModel::Str(e.event), e.payload])
}

/// Reading a frame: an array of at least five elements whose fourth is a
/// string; any further elements are ignored.
pub open spec fn decode_model(j: JsonModel) -> Result<EnvelopeModel, DecodeError> {
    match j {
        JsonModel::Array(s) => {
            if s.len() < 5 {
                Err(DecodeError::TooShort)
            } else {
                match s[3] {
                    JsonModel::Str(event) => Ok(
                        EnvelopeModel {
                            join_ref: s[0],
                            msg_ref: s[1],
                            topic: s[2],
                            event,
                            payload: s[4],
                        },
                    ),
                    _ => Err(DecodeError::EventNotString),
                }
            }
        },
        _ => Err(DecodeError::NotAnArray),
    }
}

/// Writes a frame as its five-element array; `null` headers stay in place.
pub fn encode(e: Envelope) -> (r: Json)
    ensures
        r@ == encode_model(e@),
{
    let model = Ghost(e@);
    let v: Vec<Json> = vec![e.join_ref, e.msg_ref, e.topic, Json::Str(e.event), e.payload];
    proof {
        lemma_array_view(v);
        assert(array_models(v@) =~= seq![
            model@.join_ref,
            model@.msg_ref,
            model@.topic,
            JsonModel::Str(model@.event),
            model@.payload,
        ]);
    }
    Json::Array(v)
}

/// Reads a frame out of a structured value.
pub fn decode(j: Json) -> (r: Result<Envelope, DecodeError>)
    ensures
        match r {
            Ok(e) => decode_model(j@) == Ok::<EnvelopeModel, DecodeError>(e@),
            Err(x) => decode_model(j@) == Err::<EnvelopeModel, DecodeError>(x),
        },
{
    match j {
        Json::Array(v) => {
            proof {
                lemma_array_view(v);
            }
            let ghost whole = array_models(v@);
            let mut v = v;
            if v.len() < 5 {
                return Err(DecodeError::TooShort);
            }
            v.truncate(5);
            assert(v@.len() == 5);
            assert(forall|k: int| 0 <= k < 5 ==> #[trigger] v@[k]@ == whole[k]);
            let payload = v.pop().unwrap();
            let event = v.pop().unwrap();
            let topic = v.pop().unwrap();
            let msg_ref = v.pop().unwrap();
            let join_ref = v.pop().unwrap();
            match event {
                Json::Str(event) => Ok(Envelope { join_ref, msg_ref, topic, event, payload }),
                _ => Err(DecodeError::EventNotString),
            }
        },
        _ => Err(DecodeError::NotAnArray),
    }
}

/// Reading back a written frame gives the frame again.
pub proof fn lemma_decode_encode(e: EnvelopeModel)
    ensures
        decode_model(encode_model(e)) == Ok::<EnvelopeModel, DecodeError>(e),
{
    let s = seq![e.join_ref, e.msg_ref, e.topic, JsonModel::Str(e.event), e.payload];
    assert(s[3] == JsonModel::Str(e.event));
}

/// Writing a frame that was read from a five-element array gives that array.
pub proof fn lemma_encode_decode(j: JsonModel, e: EnvelopeModel)
    requires
        decode_model(j) == Ok::<EnvelopeModel, DecodeError>(e),
        j->Array_0.len() == 5,
    ensures
        encode_model(e) == j,
{
    let s = j->Array_0;
    assert(seq![e.join_ref, e.msg_ref, e.topic, JsonModel::Str(e.event), e.payload] =~= s);
}

} // verus!
