//! How an encoded value leaves a wrapper on each platform.
use vstd::prelude::*;

use crate::expansion::{ExpansionError, ExpansionErrorView};
use crate::wire::{CodecNode, require_runtime_wire, spec_supported};

verus! {

/// How a native wrapper hands back an encoded buffer.
#[derive(Clone, Copy, Debug, Eq, PartialEq, Structural)]
pub enum NativeBufferShape {
    Buffer,
    Slice,
    BufferPointer,
    /// A shape this expansion does not know.
    Other,
}

/// How a WebAssembly wrapper hands back an encoded buffer.
#[derive(Clone, Copy, Debug, Eq, PartialEq, Structural)]
pub enum WasmBufferShape {
    Packed,
    Slice,
    /// A shape this expansion does not know.
    Other,
}

/// The buffer shape the binding chose, for the platform it chose it on.
#[derive(Clone, Copy, Debug, Eq, PartialEq, Structural)]
pub enum BufferShape {
    Native(NativeBufferShape),
    Wasm32(WasmBufferShape),
}

/// What an encoded return is carried in: an `FfiBuf` returned as it is, or
/// one packed into a `u64`.
#[derive(Clone, Copy, Debug, Eq, PartialEq, Structural)]
pub enum Carrier {
    Buffer,
    Packed,
}

/// The carrier of an encoded return of shape `shape`, or why that shape
/// cannot be returned.
pub open spec fn carrier_of(shape: BufferShape) -> Result<Carrier, ExpansionErrorView> {
    match shape {
        BufferShape::Native(NativeBufferShape::Buffer) => Ok(Carrier::Buffer),
        BufferShape::Native(NativeBufferShape::Other) => Err(
            ExpansionErrorView::UnsupportedExpansion("unknown native encoded return shape"@),
        ),
        BufferShape::Native(_) => Err(
            ExpansionErrorView::UnsupportedExpansion("native encoded return shape"@),
        ),
        BufferShape::Wasm32(WasmBufferShape::Packed) => Ok(Carrier::Packed),
        BufferShape::Wasm32(WasmBufferShape::Slice) => Err(
            ExpansionErrorView::UnsupportedExpansion("wasm encoded return shape"@),
        ),
        BufferShape::Wasm32(WasmBufferShape::Other) => Err(
            ExpansionErrorView::UnsupportedExpansion("unknown wasm encoded return shape"@),
        ),
    }
}

/// A carrier result taken by its view.
pub open spec fn carrier_view(result: Result<Carrier, ExpansionError>) -> Result<
    Carrier,
    ExpansionErrorView,
> {
    match result {
        Ok(carrier) => Ok(carrier),
        Err(error) => Err(error@),
    }
}

/// The carrier of an encoded return of shape `shape`.
pub fn carrier(shape: BufferShape) -> (carrier: Result<Carrier, ExpansionError>)
    ensures
        carrier_view(carrier) == carrier_of(shape),
{
    match shape {
        BufferShape::Native(NativeBufferShape::Buffer) => Ok(Carrier::Buffer),
        BufferShape::Native(NativeBufferShape::Other) => Err(
            ExpansionError::UnsupportedExpansion("unknown native encoded return shape"),
        ),
        BufferShape::Native(_) => Err(
            ExpansionError::UnsupportedExpansion("native encoded return shape"),
        ),
        BufferShape::Wasm32(WasmBufferShape::Packed) => Ok(Carrier::Packed),
        BufferShape::Wasm32(WasmBufferShape::Slice) => Err(
            ExpansionError::UnsupportedExpansion("wasm encoded return shape"),
        ),
        BufferShape::Wasm32(WasmBufferShape::Other) => Err(
            ExpansionError::UnsupportedExpansion("unknown wasm encoded return shape"),
        ),
    }
}

/// The carrier of a value encoded with `codec` in a buffer of shape
/// `shape`: the shape is checked first, then the codec.
pub open spec fn value_carrier_of(codec: CodecNode, shape: BufferShape) -> Result<Carrier, ExpansionErrorView> {
    match carrier_of(shape) {
        Err(error) => Err(error),
        Ok(carrier) => match spec_supported(codec) {
            Err(error) => Err(error),
            Ok(()) => Ok(carrier),
        },
    }
}

/// Renders encoded returns.
pub struct Renderer;

impl Renderer {
    /// The empty encoded value of shape `shape`: an empty buffer in the
    /// shape's carrier.
    pub fn empty(self, shape: BufferShape) -> (empty: Result<Carrier, ExpansionError>)
        ensures
            carrier_view(empty) == carrier_of(shape),
    {
        carrier(shape)
    }

    /// The carrier of a value encoded with `codec` in a buffer of shape
    /// `shape`, once the wire format is known to carry `codec`.
    pub fn value(self, codec: &CodecNode, shape: BufferShape) -> (value: Result<Carrier, ExpansionError>)
        ensures
            carrier_view(value) == value_carrier_of(*codec, shape),
    {
        let carrier = match carrier(shape) {
            Ok(carrier) => carrier,
            Err(error) => return Err(error),
        };
        match require_runtime_wire(codec) {
            Ok(()) => Ok(carrier),
            Err(error) => Err(error),
        }
    }
}

} // verus!
