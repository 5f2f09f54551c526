//! Vertex buffers and vertex arrays.

use core::marker::PhantomData;
use vstd::prelude::*;

use crate::error::Error;
use crate::sys::gl::balance;
use crate::sys::gl::extends;
use crate::sys::gl::issued;
use crate::sys::gl::lemma_balance_add;
use crate::sys::gl::lemma_balance_neutral;
use crate::sys::gl::lemma_balance_push;
use crate::sys::gl::lemma_issued;
use crate::sys::gl::Gl;
use crate::sys::gl::Op;
use crate::sys::gl::OpOf;
use crate::sys::kinds::Type;
use crate::sys::kinds::VertexBufferTarget;
use crate::sys::kinds::VertexBufferUsage;

verus! {

/// The role of a vertex attribute.
#[derive(Clone, Copy, Debug, PartialEq, Eq, Structural)]
pub enum AttribType {
    Position,
    Normal,
    Texture,
    Color,
}

impl AttribType {
    /// The name of the role, as used in diagnostics.
    pub open spec fn name(self) -> Seq<char> {
        match self {
            AttribType::Position => "position"@,
            AttribType::Normal => "normal"@,
            AttribType::Texture => "texture"@,
            AttribType::Color => "color"@,
        }
    }

    /// The name of the role, as used in diagnostics.
    pub fn as_str(&self) -> (name: &'static str)
        ensures
            name@ == self.name(),
    {
        match self {
            AttribType::Position => "position",
            AttribType::Normal => "normal",
            AttribType::Texture => "texture",
            AttribType::Color => "color",
        }
    }
}

/// The layout of one attribute within a vertex.
#[derive(Clone, Copy, Debug, PartialEq, Eq, Structural)]
pub struct Attrib {
    /// The number of components.
    pub size: i32,
    /// The type of each component.
    pub type_: Type,
    /// Whether integer components are mapped to the unit range.
    pub normalize: bool,
    /// The distance in bytes from one vertex to the next.
    pub stride: i32,
    /// The distance in bytes from the start of the vertex.
    pub offset: i32,
}

/// The description of the attributes of a vertex type.
pub trait Attribs {
    /// The attributes of the vertex type, each with its role and its
    /// layout, in the order in which they are declared.
    fn attribs() -> Vec<(AttribType, Attrib)>;
}

/// A vertex buffer object.
///
/// The value owns the handle of the buffer: it is created from the
/// items it holds and given back to the device by
/// [`VertexBuffer::release`], which consumes the value.
pub struct VertexBuffer<G: Gl, T> {
    /// The vertex buffer object.
    vbo: G::VertexBufferObject,
    /// The "target" to bind to.
    target: VertexBufferTarget,
    /// The number of items in the buffer.
    count: usize,
    /// Phantom data using `T`.
    _phantom: PhantomData<T>,
}

/// The operations that create a vertex buffer for a target and fill it
/// with `items` items: the buffer is created and bound, the data is
/// handed over and the buffer is unbound.
pub open spec fn filling<G: Gl>(
    vbo: G::VertexBufferObject,
    target: VertexBufferTarget,
    usage: VertexBufferUsage,
    items: nat,
) -> Seq<OpOf<G>> {
    Seq::<OpOf<G>>::empty().push(Op::CreateVertexBuffer { created: Ok(vbo) }).push(
        Op::BindVertexBuffer { target, vbo: Some(vbo) },
    ).push(Op::VertexBufferData { target, usage, items }).push(
        Op::BindVertexBuffer { target, vbo: None },
    )
}

impl<G: Gl, T> VertexBuffer<G, T> {
    /// The handle of the vertex buffer.
    pub closed spec fn view(&self) -> G::VertexBufferObject {
        self.vbo
    }

    /// The "target" that the buffer binds to.
    pub closed spec fn target(&self) -> VertexBufferTarget {
        self.target
    }

    /// The number of items in the buffer.
    pub closed spec fn count(&self) -> usize {
        self.count
    }

    /// Whether `result` and the operations issued, `issued`, are those
    /// of the construction of a buffer for the given target from
    /// `items` items.
    pub open spec fn filled(
        target: VertexBufferTarget,
        usage: VertexBufferUsage,
        items: nat,
        issued: Seq<OpOf<G>>,
        result: Result<Self, Error<G::Error>>,
    ) -> bool {
        match result {
            Ok(buffer) => buffer.target() == target && buffer.count() == items && issued
                == filling::<G>(buffer@, target, usage, items),
            Err(Error::CreateVertexBuffer { cause }) => issued == Seq::<OpOf<G>>::empty().push(
                Op::CreateVertexBuffer { created: Err(cause) },
            ),
            Err(_) => false,
        }
    }

    /// Create a buffer of vertices.
    pub fn from_vertices(vertices: &[T], usage: VertexBufferUsage, context: &mut G) -> (result:
        Result<Self, Error<G::Error>>)
        ensures
            extends(old(context).journal(), final(context).journal()),
            Self::filled(
                VertexBufferTarget::Array,
                usage,
                vertices@.len(),
                issued(old(context).journal(), final(context).journal()),
                result,
            ),
    {
        Self::from_data(VertexBufferTarget::Array, usage, vertices, context)
    }

    /// Create a buffer of element indices.
    pub fn from_indices(indices: &[T], usage: VertexBufferUsage, context: &mut G) -> (result:
        Result<Self, Error<G::Error>>)
        ensures
            extends(old(context).journal(), final(context).journal()),
            Self::filled(
                VertexBufferTarget::ElementArray,
                usage,
                indices@.len(),
                issued(old(context).journal(), final(context).journal()),
                result,
            ),
    {
        Self::from_data(VertexBufferTarget::ElementArray, usage, indices, context)
    }

    /// Create a buffer for the given target from the given items.
    fn from_data(
        target: VertexBufferTarget,
        usage: VertexBufferUsage,
        data: &[T],
        context: &mut G,
    ) -> (result: Result<Self, Error<G::Error>>)
        ensures
            extends(old(context).journal(), final(context).journal()),
            Self::filled(
                target,
                usage,
                data@.len(),
                issued(old(context).journal(), final(context).journal()),
                result,
            ),
    {
        let ghost before = context.journal();
        let vbo = match context.create_vertex_buffer() {
            Ok(vbo) => vbo,
            Err(cause) => {
                proof {
                    let ops = Seq::<OpOf<G>>::empty().push(
                        Op::CreateVertexBuffer { created: Err(cause) },
                    );
                    assert(context.journal() =~= before + ops);
                    lemma_issued(before, ops);
                }
                return Err(Error::CreateVertexBuffer { cause });
            },
        };
        let slf = VertexBuffer { vbo, target, count: data.len(), _phantom: PhantomData };
        slf.bind(context);
        context.set_vertex_buffer_data(target, usage, data);
        slf.unbind(context);
        proof {
            let ops = filling::<G>(slf@, target, usage, data@.len());
            assert(context.journal() =~= before + ops);
            lemma_issued(before, ops);
        }
        Ok(slf)
    }

    /// Bind the buffer to its target.
    pub fn bind(&self, context: &mut G)
        ensures
            final(context).journal() == old(context).journal().push(
                Op::BindVertexBuffer { target: self.target(), vbo: Some(self@) },
            ),
    {
        context.bind_vertex_buffer(self.target, Some(&self.vbo));
    }

    /// Unbind whatever buffer is bound to the target of this one.
    pub fn unbind(&self, context: &mut G)
        ensures
            final(context).journal() == old(context).journal().push(
                Op::BindVertexBuffer { target: self.target(), vbo: None },
            ),
    {
        context.bind_vertex_buffer(self.target, None);
    }

    /// The number of items in the buffer.
    #[verifier::when_used_as_spec(count)]
    pub fn item_count(&self) -> (count: usize)
        ensures
            count == self.count(),
    {
        self.count
    }

    /// The handle of the vertex buffer.
    pub fn handle(&self) -> (handle: &G::VertexBufferObject)
        ensures
            *handle == self@,
    {
        &self.vbo
    }

    /// Delete the buffer on the device.
    pub fn release(self, context: &mut G)
        ensures
            final(context).journal() == old(context).journal().push(
                Op::DeleteVertexBuffer { vbo: self@ },
            ),
    {
        context.delete_vertex_buffer(&self.vbo);
    }
}

/// The index given for the first entry with the role `ty` among the
/// entries of `indices` from position `from` on, if there is one.
pub open spec fn find_index_from(
    indices: Seq<(u32, AttribType)>,
    ty: AttribType,
    from: int,
) -> Option<u32>
    decreases indices.len() - from,
{
    if from < 0 || from >= indices.len() {
        None
    } else if indices[from].1 == ty {
        Some(indices[from].0)
    } else {
        find_index_from(indices, ty, from + 1)
    }
}

/// The index given for the role `ty`: that of the first entry of
/// `indices` with that role, if there is one.
pub open spec fn find_index(indices: Seq<(u32, AttribType)>, ty: AttribType) -> Option<u32> {
    find_index_from(indices, ty, 0)
}

/// The position of the first attribute from position `from` on for
/// whose role no index is given, or the number of attributes if there
/// is none.
pub open spec fn first_missing_from(
    attribs: Seq<(AttribType, Attrib)>,
    indices: Seq<(u32, AttribType)>,
    from: int,
) -> int
    decreases attribs.len() - from,
{
    if from < 0 || from >= attribs.len() {
        attribs.len() as int
    } else if find_index(indices, attribs[from].0) is None {
        from
    } else {
        first_missing_from(attribs, indices, from + 1)
    }
}

/// The position of the first attribute for whose role no index is
/// given, or the number of attributes if there is none.
pub open spec fn first_missing(
    attribs: Seq<(AttribType, Attrib)>,
    indices: Seq<(u32, AttribType)>,
) -> int {
    first_missing_from(attribs, indices, 0)
}

/// The operations that enable the vertex attribute with the given
/// index and describe its layout.
pub open spec fn attribute<G: Gl>(index: u32, attrib: Attrib) -> Seq<OpOf<G>> {
    Seq::<OpOf<G>>::empty().push(Op::EnableVertexAttribArray { index }).push(
        Op::VertexAttribPointer {
            index,
            size: attrib.size,
            ty: attrib.type_,
            normalize: attrib.normalize,
            stride: attrib.stride,
            offset: attrib.offset,
        },
    )
}

/// The operations that enable and describe the first `count`
/// attributes, each under the index given for its role.
pub open spec fn attributes<G: Gl>(
    attribs: Seq<(AttribType, Attrib)>,
    indices: Seq<(u32, AttribType)>,
    count: nat,
) -> Seq<OpOf<G>>
    recommends
        count <= first_missing(attribs, indices),
    decreases count,
{
    if count == 0 {
        Seq::empty()
    } else {
        attributes::<G>(attribs, indices, (count - 1) as nat) + attribute::<G>(
            find_index(indices, attribs[count - 1].0).unwrap(),
            attribs[count - 1].1,
        )
    }
}

/// The vertex array that the first of the given operations created, if
/// any.
pub open spec fn created_array<G: Gl>(issued: Seq<OpOf<G>>) -> Option<G::VertexArrayObject> {
    if issued.len() > 0 {
        match issued[0] {
            Op::CreateVertexArray { created: Ok(vao) } => Some(vao),
            _ => None,
        }
    } else {
        None
    }
}

/// The operations that arrange the first `count` attributes of a vertex
/// buffer in a vertex array: the array is created and bound, the
/// buffer is bound, the attributes are enabled and described, and
/// buffer and array are unbound; an array that is not `complete` is
/// deleted again.
pub open spec fn arranging<G: Gl>(
    vao: G::VertexArrayObject,
    vbo: G::VertexBufferObject,
    target: VertexBufferTarget,
    attribs: Seq<(AttribType, Attrib)>,
    indices: Seq<(u32, AttribType)>,
    count: nat,
    complete: bool,
) -> Seq<OpOf<G>> {
    let arranged = Seq::<OpOf<G>>::empty().push(Op::CreateVertexArray { created: Ok(vao) }).push(
        Op::BindVertexArray { vao: Some(vao) },
    ).push(Op::BindVertexBuffer { target, vbo: Some(vbo) }) + attributes::<G>(
        attribs,
        indices,
        count,
    ) + Seq::<OpOf<G>>::empty().push(Op::BindVertexBuffer { target, vbo: None }).push(
        Op::BindVertexArray { vao: None },
    );
    if complete {
        arranged
    } else {
        arranged.push(Op::DeleteVertexArray { vao })
    }
}

/// A vertex array object.
///
/// The value owns the handle of the vertex array: it is created by
/// [`VertexArray::new`] and given back to the device by
/// [`VertexArray::release`], which consumes the value.
pub struct VertexArray<G: Gl> {
    /// The vertex array object.
    vao: G::VertexArrayObject,
}

/// Find the index given for the role `ty`.
fn lookup(indices: &[(u32, AttribType)], ty: AttribType) -> (index: Option<u32>)
    ensures
        index == find_index(indices@, ty),
{
    let mut i: usize = 0;
    while i < indices.len()
        invariant
            i <= indices@.len(),
            find_index(indices@, ty) == find_index_from(indices@, ty, i as int),
        decreases indices@.len() - i,
    {
        if indices[i].1 == ty {
            return Some(indices[i].0);
        }
        i += 1;
    }
    None
}

impl<G: Gl> VertexArray<G> {
    /// The handle of the vertex array.
    pub closed spec fn view(&self) -> G::VertexArrayObject {
        self.vao
    }

    /// Whether `result` and the operations issued, `issued`, are those
    /// of the construction of a vertex array for the given buffer,
    /// whose vertices have the given attributes.
    ///
    /// The construction succeeds exactly if the device creates the
    /// array and an index is given for the role of each attribute. The
    /// attributes are arranged in order up to the first one without an
    /// index.
    pub open spec fn arranged<V>(
        buffer: VertexBuffer<G, V>,
        attribs: Seq<(AttribType, Attrib)>,
        indices: Seq<(u32, AttribType)>,
        issued: Seq<OpOf<G>>,
        result: Result<Self, Error<G::Error>>,
    ) -> bool {
        let missing = first_missing(attribs, indices);
        match result {
            Ok(array) => missing == attribs.len() && issued == arranging::<G>(
                array@,
                buffer@,
                buffer.target(),
                attribs,
                indices,
                attribs.len(),
                true,
            ),
            Err(Error::CreateVertexArray { cause }) => issued == Seq::<OpOf<G>>::empty().push(
                Op::CreateVertexArray { created: Err(cause) },
            ),
            Err(Error::MissingAttrib { ty }) => 0 <= missing < attribs.len() && ty
                == attribs[missing].0 && match created_array::<G>(issued) {
                Some(vao) => issued == arranging::<G>(
                    vao,
                    buffer@,
                    buffer.target(),
                    attribs,
                    indices,
                    missing as nat,
                    false,
                ),
                None => false,
            },
            Err(_) => false,
        }
    }

    /// Enable and describe the given attributes, in order, up to the
    /// first one for whose role no index is given; that role is
    /// returned.
    fn arrange(
        attribs: &[(AttribType, Attrib)],
        attrib_indices: &[(u32, AttribType)],
        context: &mut G,
    ) -> (missing: Option<AttribType>)
        ensures
            0 <= first_missing(attribs@, attrib_indices@) <= attribs@.len(),
            final(context).journal() == old(context).journal() + attributes::<G>(
                attribs@,
                attrib_indices@,
                first_missing(attribs@, attrib_indices@) as nat,
            ),
            match missing {
                Some(ty) => first_missing(attribs@, attrib_indices@) < attribs@.len() && ty
                    == attribs@[first_missing(attribs@, attrib_indices@)].0,
                None => first_missing(attribs@, attrib_indices@) == attribs@.len(),
            },
    {
        let mut i: usize = 0;
        while i < attribs.len()
            invariant
                i <= attribs@.len(),
                first_missing(attribs@, attrib_indices@) == first_missing_from(
                    attribs@,
                    attrib_indices@,
                    i as int,
                ),
                context.journal() == old(context).journal() + attributes::<G>(
                    attribs@,
                    attrib_indices@,
                    i as nat,
                ),
            decreases attribs@.len() - i,
        {
            let (attrib_type, attrib) = attribs[i];
            match lookup(attrib_indices, attrib_type) {
                None => {
                    return Some(attrib_type);
                },
                Some(idx) => {
                    context.enable_vertex_attrib_array(idx);
                    context.set_vertex_attrib_pointer(
                        idx,
                        attrib.size,
                        attrib.type_,
                        attrib.normalize,
                        attrib.stride,
                        attrib.offset,
                    );
                },
            }
            i += 1;
        }
        None
    }

    /// Create a vertex array for a vertex buffer whose vertices have
    /// the given attributes, using the index given for the role of each
    /// attribute.
    ///
    /// If no index is given for the role of an attribute, the work
    /// stops there, and the vertex array is deleted again.
    pub fn with_attribs<V>(
        vertex_buffer: &VertexBuffer<G, V>,
        attribs: &[(AttribType, Attrib)],
        attrib_indices: &[(u32, AttribType)],
        context: &mut G,
    ) -> (result: Result<Self, Error<G::Error>>)
        ensures
            extends(old(context).journal(), final(context).journal()),
            Self::arranged(
                *vertex_buffer,
                attribs@,
                attrib_indices@,
                issued(old(context).journal(), final(context).journal()),
                result,
            ),
    {
        let ghost before = context.journal();
        let slf = match context.create_vertex_array() {
            Ok(vao) => VertexArray { vao },
            Err(cause) => {
                proof {
                    let ops = Seq::<OpOf<G>>::empty().push(
                        Op::CreateVertexArray { created: Err(cause) },
                    );
                    assert(context.journal() =~= before + ops);
                    lemma_issued(before, ops);
                }
                return Err(Error::CreateVertexArray { cause });
            },
        };
        slf.bind(context);
        vertex_buffer.bind(context);
        let missing = Self::arrange(attribs, attrib_indices, context);
        vertex_buffer.unbind(context);
        slf.unbind(context);
        let ghost vao = slf@;
        let ghost count = first_missing(attribs@, attrib_indices@) as nat;
        match missing {
            None => {
                proof {
                    let ops = arranging::<G>(
                        vao,
                        vertex_buffer@,
                        vertex_buffer.target(),
                        attribs@,
                        attrib_indices@,
                        count,
                        true,
                    );
                    assert(context.journal() =~= before + ops);
                    lemma_issued(before, ops);
                }
                Ok(slf)
            },
            Some(ty) => {
                slf.release(context);
                proof {
                    let ops = arranging::<G>(
                        vao,
                        vertex_buffer@,
                        vertex_buffer.target(),
                        attribs@,
                        attrib_indices@,
                        count,
                        false,
                    );
                    assert(context.journal() =~= before + ops);
                    lemma_issued(before, ops);
                }
                Err(Error::MissingAttrib { ty })
            },
        }
    }

    /// Create a vertex array for a vertex buffer, using the index given
    /// for the role of each attribute of the vertex type.
    ///
    /// The attributes are those that the vertex type describes itself
    /// with; what is done with them is what [`VertexArray::with_attribs`]
    /// does.
    pub fn new<V: Attribs>(
        vertex_buffer: &VertexBuffer<G, V>,
        attrib_indices: &[(u32, AttribType)],
        context: &mut G,
    ) -> (result: Result<Self, Error<G::Error>>)
        ensures
            extends(old(context).journal(), final(context).journal()),
            exists|attribs: Vec<(AttribType, Attrib)>|
                call_ensures(V::attribs, (), attribs) && Self::arranged(
                    *vertex_buffer,
                    attribs@,
                    attrib_indices@,
                    issued(old(context).journal(), final(context).journal()),
                    result,
                ),
    {
        let attribs = V::attribs();
        let result = Self::with_attribs(
            vertex_buffer,
            attribs.as_slice(),
            attrib_indices,
            context,
        );
        result
    }

    /// Bind the vertex array.
    pub fn bind(&self, context: &mut G)
        ensures
            final(context).journal() == old(context).journal().push(
                Op::BindVertexArray { vao: Some(self@) },
            ),
    {
        context.bind_vertex_array(Some(&self.vao));
    }

    /// Unbind whatever vertex array is bound.
    fn unbind(&self, context: &mut G)
        ensures
            final(context).journal() == old(context).journal().push(
                Op::BindVertexArray { vao: None },
            ),
    {
        context.bind_vertex_array(None);
    }

    /// The handle of the vertex array.
    pub fn handle(&self) -> (handle: &G::VertexArrayObject)
        ensures
            *handle == self@,
    {
        &self.vao
    }

    /// Delete the vertex array on the device.
    pub fn release(self, context: &mut G)
        ensures
            final(context).journal() == old(context).journal().push(
                Op::DeleteVertexArray { vao: self@ },
            ),
    {
        context.delete_vertex_array(&self.vao);
    }
}

/// The construction of a vertex buffer leaves exactly one more object
/// on the device if it succeeds, and none if it fails.
pub proof fn lemma_buffer_balanced<G: Gl, T>(
    target: VertexBufferTarget,
    usage: VertexBufferUsage,
    items: nat,
    issued: Seq<OpOf<G>>,
    result: Result<VertexBuffer<G, T>, Error<G::Error>>,
)
    requires
        VertexBuffer::<G, T>::filled(target, usage, items, issued, result),
    ensures
        balance(issued) == if result is Ok {
            1int
        } else {
            0int
        },
{
    let none = Seq::<OpOf<G>>::empty();
    match result {
        Ok(buffer) => {
            let vbo = buffer@;
            let create = none.push(Op::CreateVertexBuffer { created: Ok(vbo) });
            let rest = none.push(Op::BindVertexBuffer { target, vbo: Some(vbo) }).push(
                Op::VertexBufferData { target, usage, items },
            ).push(Op::BindVertexBuffer { target, vbo: None });
            assert(filling::<G>(vbo, target, usage, items) =~= create + rest);
            lemma_balance_push(none, Op::CreateVertexBuffer { created: Ok(vbo) });
            lemma_balance_neutral(rest);
            lemma_balance_add(create, rest);
        },
        Err(_) => {
            lemma_balance_neutral(issued);
        },
    }
}

/// Enabling and describing attributes changes nothing about the number
/// of objects on the device.
proof fn lemma_attributes_neutral<G: Gl>(
    attribs: Seq<(AttribType, Attrib)>,
    indices: Seq<(u32, AttribType)>,
    count: nat,
)
    ensures
        balance(attributes::<G>(attribs, indices, count)) == 0,
    decreases count,
{
    if count > 0 {
        let attribute = attribute::<G>(
            find_index(indices, attribs[count - 1].0).unwrap(),
            attribs[count - 1].1,
        );
        lemma_attributes_neutral::<G>(attribs, indices, (count - 1) as nat);
        lemma_balance_neutral(attribute);
        lemma_balance_add(attributes::<G>(attribs, indices, (count - 1) as nat), attribute);
    }
}

/// The operations that arrange attributes in a vertex array leave one
/// more object on the device if the array is complete, and none if it
/// is not.
proof fn lemma_arranging_balanced<G: Gl>(
    vao: G::VertexArrayObject,
    vbo: G::VertexBufferObject,
    target: VertexBufferTarget,
    attribs: Seq<(AttribType, Attrib)>,
    indices: Seq<(u32, AttribType)>,
    count: nat,
    complete: bool,
)
    ensures
        balance(arranging::<G>(vao, vbo, target, attribs, indices, count, complete))
            == if complete {
            1int
        } else {
            0int
        },
{
    let none = Seq::<OpOf<G>>::empty();
    let create = Op::CreateVertexArray { created: Ok(vao) };
    let open = none.push(create).push(Op::BindVertexArray { vao: Some(vao) }).push(
        Op::BindVertexBuffer { target, vbo: Some(vbo) },
    );
    let middle = attributes::<G>(attribs, indices, count);
    let close = none.push(Op::BindVertexBuffer { target, vbo: None }).push(
        Op::BindVertexArray { vao: None },
    );
    lemma_balance_push(none, create);
    lemma_balance_push(none.push(create), Op::BindVertexArray { vao: Some(vao) });
    lemma_balance_push(
        none.push(create).push(Op::BindVertexArray { vao: Some(vao) }),
        Op::BindVertexBuffer { target, vbo: Some(vbo) },
    );
    lemma_attributes_neutral::<G>(attribs, indices, count);
    lemma_balance_neutral(close);
    lemma_balance_add(open, middle);
    lemma_balance_add(open + middle, close);
    if !complete {
        lemma_balance_push(open + middle + close, Op::DeleteVertexArray { vao });
    }
}

/// The construction of a vertex array leaves exactly one more object on
/// the device if it succeeds, and none if it fails.
pub proof fn lemma_array_balanced<G: Gl, V>(
    buffer: VertexBuffer<G, V>,
    attribs: Seq<(AttribType, Attrib)>,
    indices: Seq<(u32, AttribType)>,
    issued: Seq<OpOf<G>>,
    result: Result<VertexArray<G>, Error<G::Error>>,
)
    requires
        VertexArray::<G>::arranged(buffer, attribs, indices, issued, result),
    ensures
        balance(issued) == if result is Ok {
            1int
        } else {
            0int
        },
{
    let missing = first_missing(attribs, indices);
    match result {
        Ok(array) => {
            lemma_arranging_balanced::<G>(
                array@,
                buffer@,
                buffer.target(),
                attribs,
                indices,
                attribs.len(),
                true,
            );
        },
        Err(Error::CreateVertexArray { cause }) => {
            lemma_balance_neutral(issued);
        },
        Err(Error::MissingAttrib { ty }) => {
            let vao = created_array::<G>(issued).unwrap();
            lemma_arranging_balanced::<G>(
                vao,
                buffer@,
                buffer.target(),
                attribs,
                indices,
                missing as nat,
                false,
            );
        },
        Err(_) => {},
    }
}

} // verus!
