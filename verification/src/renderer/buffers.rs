//! Vertex array, vertex buffer and element buffer handles.
use crate::error::Error;
use vstd::prelude::*;

verus! {

/// A vertex array object, by its handle.
#[derive(Debug, PartialEq, Eq)]
pub struct VertexArrayObject(pub u32);

/// A vertex buffer object, by its handle.
#[derive(Debug, PartialEq, Eq)]
pub struct VertexBufferObject(pub u32);

/// An element buffer object, by its handle.
#[derive(Debug, PartialEq, Eq)]
pub struct ElementBufferObject(pub u32);

impl VertexArrayObject {
    /// Accepts the handle that the graphics API generated. Zero means that
    /// no object was created.
    pub fn from_handle(handle: u32) -> (r: Result<Self, Error>)
        ensures
            handle != 0 ==> r == Ok::<Self, Error>(VertexArrayObject(handle)),
            handle == 0 ==> (r matches Err(Error::VAOGenError(m)) && m@ == "cannot create vao object"@),
    {
        if handle != 0 {
            Ok(VertexArrayObject(handle))
        } else {
            Err(Error::VAOGenError("cannot create vao object"))
        }
    }
}

impl VertexBufferObject {
    /// Accepts the handle that the graphics API generated. Zero means that
    /// no object was created.
    pub fn from_handle(handle: u32) -> (r: Result<Self, Error>)
        ensures
            handle != 0 ==> r == Ok::<Self, Error>(VertexBufferObject(handle)),
            handle == 0 ==> (r matches Err(Error::VBOGenError(m)) && m@ == "cannot create vbo"@),
    {
        if handle != 0 {
            Ok(Self(handle))
        } else {
            Err(Error::VBOGenError("cannot create vbo"))
        }
    }
}

impl ElementBufferObject {
    /// Accepts the handle that the graphics API generated. Zero means that
    /// no object was created.
    pub fn from_handle(handle: u32) -> (r: Result<Self, Error>)
        ensures
            handle != 0 ==> r == Ok::<Self, Error>(ElementBufferObject(handle)),
            handle == 0 ==> (r matches Err(Error::EBOGenError(m)) && m@ == "cannot create ebo"@),
    {
        if handle != 0 {
            Ok(Self(handle))
        } else {
            Err(Error::EBOGenError("cannot create ebo"))
        }
    }

    /// The size in bytes of `count` indices of four bytes each, if it fits.
    pub fn byte_len(count: usize) -> (r: Option<usize>)
        ensures
            count * 4 <= usize::MAX ==> r == Some((count * 4) as usize),
            count * 4 > usize::MAX ==> r is None,
    {
        count.checked_mul(4)
    }
}

} // verus!
