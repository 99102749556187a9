//! The gateway's error type.
use vstd::prelude::*;

verus! {

#[derive(Debug)]
pub enum GatewayError {
    /// The configuration names something the gateway cannot serve.
    InvalidConfig(String),
    /// No route serves the requested model.
    UnknownModel(String),
    /// A body is not the JSON shape the protocol requires.
    InvalidJsonMessage(String),
}

pub enum GatewayErrorV {
    InvalidConfig(Seq<char>),
    UnknownModel(Seq<char>),
    InvalidJsonMessage(Seq<char>),
}

impl View for GatewayError {
    type V = GatewayErrorV;

    open spec fn view(&self) -> GatewayErrorV {
        match self {
            GatewayError::InvalidConfig(s) => GatewayErrorV::InvalidConfig(s@),
            GatewayError::UnknownModel(s) => GatewayErrorV::UnknownModel(s@),
            GatewayError::InvalidJsonMessage(s) => GatewayErrorV::InvalidJsonMessage(s@),
        }
    }
}

impl GatewayError {
    /// The error's message.
    pub fn message(&self) -> (r: String)
        ensures
            r@ == match self@ {
                GatewayErrorV::InvalidConfig(s) => s,
                GatewayErrorV::UnknownModel(s) => s,
                GatewayErrorV::InvalidJsonMessage(s) => s,
            },
    {
        match self {
            GatewayError::InvalidConfig(s) => s.clone(),
            GatewayError::UnknownModel(s) => s.clone(),
            GatewayError::InvalidJsonMessage(s) => s.clone(),
        }
    }
}

} // verus!
