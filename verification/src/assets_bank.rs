//! The asset bank: sole owner of every engine resource.
//!
//! All resources live in one arena, indexed by opaque handles minted from
//! a monotone serial counter: a handle is issued once, never reused, and
//! every cross-reference between resources is a handle looked up here at
//! draw time, never a stored reference. Registration validates the
//! resource and returns a fresh handle; resolution demands a handle the
//! bank issued — passing any other is a programmer error ruled out by
//! contract, not a recoverable condition.

use crate::camera::Camera;
use crate::error::EngineError;
use crate::handle::{lemma_handle_eq, Handle};
use crate::resources::{
    camera_bind_group_layout, diffuse_texture_bind_group_layout, is_diffuse_pipeline_desc,
    mesh_data_valid, rgba_decode_of, Instance, Mesh, RenderPipelineDesc, ShaderDesc, Texture,
    TextureFormat,
};
use vstd::pervasive::unreached;
use vstd::pervasive::VecAdditionalExecFns;
use vstd::prelude::*;

verus! {

/// One resource owned by the bank.
#[derive(Clone, Debug)]
pub enum AssetRecord {
    Mesh(Mesh),
    Texture(Texture),
    Camera(Camera),
    Pipeline(RenderPipelineDesc),
    Instances(Vec<Instance>),
}

/// The record keeps its resource's invariant.
pub open spec fn record_wf(record: AssetRecord) -> bool {
    match record {
        AssetRecord::Mesh(mesh) => mesh.wf(),
        AssetRecord::Texture(texture) => texture.wf(),
        AssetRecord::Camera(camera) => camera.wf(),
        AssetRecord::Pipeline(pipeline) => pipeline.shader.wf(),
        AssetRecord::Instances(instances) => {
            &&& instances@.len() <= u32::MAX
            &&& forall|i: int| 0 <= i < instances@.len() ==> (#[trigger] instances@[i]).wf()
        },
    }
}

/// The record stored under a serial number, searched front to back.
pub open spec fn find_record(s: Seq<(Handle, AssetRecord)>, id: u64) -> Option<AssetRecord>
    decreases s.len(),
{
    if s.len() == 0 {
        None
    } else if s[0].0.id() == id {
        Some(s[0].1)
    } else {
        find_record(s.subrange(1, s.len() as int), id)
    }
}

/// The central arena of engine resources.
pub struct AssetsBank {
    next_serial: u64,
    assets: Vec<(Handle, AssetRecord)>,
}

impl AssetsBank {
    /// Serial number the next registration will be issued.
    pub closed spec fn next_serial_spec(self) -> u64 {
        self.next_serial
    }

    /// The stored records in registration order.
    pub closed spec fn records(self) -> Seq<(Handle, AssetRecord)> {
        self.assets@
    }

    /// The record a handle resolves to, if the bank issued the handle.
    pub open spec fn lookup(self, handle: Handle) -> Option<AssetRecord> {
        find_record(self.records(), handle.id())
    }

    /// Whether the bank issued this handle.
    pub open spec fn has_asset(self, handle: Handle) -> bool {
        self.lookup(handle) is Some
    }

    /// Whether the handle resolves to a mesh.
    pub open spec fn has_mesh(self, handle: Handle) -> bool {
        self.lookup(handle) matches Some(AssetRecord::Mesh(_))
    }

    /// Whether the handle resolves to a texture.
    pub open spec fn has_texture(self, handle: Handle) -> bool {
        self.lookup(handle) matches Some(AssetRecord::Texture(_))
    }

    /// Whether the handle resolves to a camera.
    pub open spec fn has_camera(self, handle: Handle) -> bool {
        self.lookup(handle) matches Some(AssetRecord::Camera(_))
    }

    /// Whether the handle resolves to a pipeline.
    pub open spec fn has_pipeline(self, handle: Handle) -> bool {
        self.lookup(handle) matches Some(AssetRecord::Pipeline(_))
    }

    /// Whether the handle resolves to an instance set.
    pub open spec fn has_instances(self, handle: Handle) -> bool {
        self.lookup(handle) matches Some(AssetRecord::Instances(_))
    }

    /// Every stored serial lies below the counter, the serials are
    /// strictly increasing in registration order, and every record keeps
    /// its invariant.
    pub open spec fn wf(self) -> bool {
        &&& forall|i: int|
            0 <= i < self.records().len() ==> (#[trigger] self.records()[i]).0.id()
                < self.next_serial_spec()
        &&& forall|i: int, j: int|
            0 <= i < j < self.records().len() ==> (#[trigger] self.records()[i]).0.id() < (
            #[trigger] self.records()[j]).0.id()
        &&& forall|i: int|
            0 <= i < self.records().len() ==> record_wf((#[trigger] self.records()[i]).1)
    }

    /// Whether the serial space is not exhausted. The 64-bit space is
    /// effectively inexhaustible; the check exists so that registration
    /// can be proved panic-free.
    pub open spec fn can_mint(self) -> bool {
        self.next_serial_spec() < u64::MAX
    }

    /// Exposes [`Self::can_mint`] to unverified callers.
    pub fn can_register(&self) -> (r: bool)
        ensures
            r == self.can_mint(),
    {
        self.next_serial < u64::MAX
    }

    /// An empty bank.
    pub fn new() -> (bank: AssetsBank)
        ensures
            bank.wf(),
            bank.can_mint(),
            bank.records().len() == 0,
            bank.next_serial_spec() == 0,
            forall|h: Handle| !bank.has_asset(h),
    {
        AssetsBank { next_serial: 0, assets: Vec::new() }
    }

    /// Stores a record under a fresh handle: the returned handle was
    /// never issued before, resolves to exactly this record, and leaves
    /// every previously issued handle resolving as before.
    fn insert_record(&mut self, record: AssetRecord) -> (handle: Handle)
        requires
            old(self).wf(),
            old(self).can_mint(),
            record_wf(record),
        ensures
            final(self).wf(),
            handle.id() == old(self).next_serial_spec(),
            !old(self).has_asset(handle),
            final(self).next_serial_spec() == old(self).next_serial_spec() + 1,
            final(self).lookup(handle) == Some(record),
            forall|other: Handle|
                other.id() != handle.id() ==> final(self).lookup(other) == old(self).lookup(
                    other,
                ),
            final(self).records() == old(self).records().push((handle, record)),
    {
        let handle = Handle::from_serial(self.next_serial);
        self.next_serial = self.next_serial + 1;
        self.assets.push((handle, record));
        proof {
            let s_old = old(self).records();
            let s_new = self.records();
            assert(s_new == s_old.push((handle, record)));
            assert forall|k: int| 0 <= k < s_old.len() implies (#[trigger] s_old[k]).0.id()
                != handle.id() by {}
            lemma_find_record_absent(s_old, handle.id());
            lemma_find_record_present(s_new, handle.id(), s_old.len() as int);
            assert forall|other: Handle| other.id() != handle.id() implies find_record(
                s_new,
                other.id(),
            ) == find_record(s_old, other.id()) by {
                lemma_find_record_push_other(s_old, (handle, record), other.id());
            }
        }
        handle
    }

    /// Registers a mesh from raw vertex words and indices. Fails with
    /// `InvalidVertexData` exactly when the vertex data is empty or not a
    /// whole number of records, or an index is out of range; otherwise
    /// uploads the validated data under a fresh handle.
    pub fn register_mesh(&mut self, vertex_words: Vec<u32>, index_data: Vec<u16>) -> (result:
        Result<Handle, EngineError>)
        requires
            old(self).wf(),
            old(self).can_mint(),
        ensures
            final(self).wf(),
            result is Ok <==> mesh_data_valid(vertex_words@, index_data@),
            result matches Err(e) ==> e == EngineError::InvalidVertexData && *final(self) == *old(
                self,
            ),
            result matches Ok(handle) ==> {
                &&& !old(self).has_asset(handle)
                &&& handle.id() == old(self).next_serial_spec()
                &&& final(self).next_serial_spec() == old(self).next_serial_spec() + 1
                &&& final(self).lookup(handle) matches Some(AssetRecord::Mesh(mesh))
                    && mesh.vertex_words@ == vertex_words@ && mesh.index_data@ == index_data@
                &&& forall|other: Handle|
                    other.id() != handle.id() ==> final(self).lookup(other) == old(self).lookup(
                        other,
                    )
            },
    {
        let ghost vw = vertex_words@;
        let ghost ix = index_data@;
        match Mesh::new(vertex_words, index_data) {
            Ok(mesh) => Ok(self.insert_record(AssetRecord::Mesh(mesh))),
            Err(e) => Err(e),
        }
    }

    /// Registers a texture by decoding encoded image bytes. Fails with
    /// `InvalidTextureData` exactly when the decoder rejects the bytes;
    /// otherwise stores the decoded pixels, their dimensions, and the
    /// default sampler binding under a fresh handle.
    pub fn register_texture(&mut self, texture_data: &[u8]) -> (result: Result<
        Handle,
        EngineError,
    >)
        requires
            old(self).wf(),
            old(self).can_mint(),
        ensures
            final(self).wf(),
            result is Ok <==> rgba_decode_of(texture_data@) is Some,
            result matches Err(e) ==> e == EngineError::InvalidTextureData && *final(self) == *old(
                self,
            ),
            result matches Ok(handle) ==> {
                &&& !old(self).has_asset(handle)
                &&& handle.id() == old(self).next_serial_spec()
                &&& final(self).next_serial_spec() == old(self).next_serial_spec() + 1
                &&& final(self).lookup(handle) matches Some(AssetRecord::Texture(texture))
                    && rgba_decode_of(texture_data@) == Some(
                    (texture.width, texture.height, texture.pixels@),
                )
                &&& forall|other: Handle|
                    other.id() != handle.id() ==> final(self).lookup(other) == old(self).lookup(
                        other,
                    )
            },
    {
        match Texture::from_encoded(texture_data) {
            Ok(texture) => Ok(self.insert_record(AssetRecord::Texture(texture))),
            Err(e) => Err(e),
        }
    }

    /// Registers a camera, storing its current parameters as the source
    /// of its uniform, under a fresh handle.
    pub fn register_camera(&mut self, camera: Camera) -> (result: Result<Handle, EngineError>)
        requires
            old(self).wf(),
            old(self).can_mint(),
            camera.wf(),
        ensures
            final(self).wf(),
            result is Ok,
            result matches Ok(handle) ==> {
                &&& !old(self).has_asset(handle)
                &&& handle.id() == old(self).next_serial_spec()
                &&& final(self).next_serial_spec() == old(self).next_serial_spec() + 1
                &&& final(self).lookup(handle) == Some(AssetRecord::Camera(camera))
                &&& forall|other: Handle|
                    other.id() != handle.id() ==> final(self).lookup(other) == old(self).lookup(
                        other,
                    )
            },
    {
        Ok(self.insert_record(AssetRecord::Camera(camera)))
    }

    /// Registers the diffuse render pipeline under a fresh handle. The
    /// stored description is pinned completely: the diffuse shader
    /// interface with its entry points and both vertex buffer layouts,
    /// the camera bind group layout in group 0 and the texture layout in
    /// group 1, and the given color target format.
    pub fn register_diffuse_pipeline(&mut self, color_format: TextureFormat) -> (result: Result<
        Handle,
        EngineError,
    >)
        requires
            old(self).wf(),
            old(self).can_mint(),
        ensures
            final(self).wf(),
            result is Ok,
            result matches Ok(handle) ==> {
                &&& !old(self).has_asset(handle)
                &&& handle.id() == old(self).next_serial_spec()
                &&& final(self).next_serial_spec() == old(self).next_serial_spec() + 1
                &&& final(self).lookup(handle) matches Some(AssetRecord::Pipeline(pipeline))
                    && pipeline.shader.wf() && is_diffuse_pipeline_desc(pipeline, color_format)
                &&& forall|other: Handle|
                    other.id() != handle.id() ==> final(self).lookup(other) == old(self).lookup(
                        other,
                    )
            },
    {
        let pipeline = RenderPipelineDesc {
            shader: ShaderDesc::new_diffuse_desc(),
            camera_layout: camera_bind_group_layout(),
            texture_layout: diffuse_texture_bind_group_layout(),
            color_format,
        };
        Ok(self.insert_record(AssetRecord::Pipeline(pipeline)))
    }

    /// Registers a set of instances, packing their cached transforms
    /// into one instance-rate buffer under a fresh handle.
    pub fn register_instances(&mut self, instances: Vec<Instance>) -> (result: Result<
        Handle,
        EngineError,
    >)
        requires
            old(self).wf(),
            old(self).can_mint(),
            instances@.len() <= u32::MAX,
            forall|i: int| 0 <= i < instances@.len() ==> (#[trigger] instances@[i]).wf(),
        ensures
            final(self).wf(),
            result is Ok,
            result matches Ok(handle) ==> {
                &&& !old(self).has_asset(handle)
                &&& handle.id() == old(self).next_serial_spec()
                &&& final(self).next_serial_spec() == old(self).next_serial_spec() + 1
                &&& final(self).lookup(handle) matches Some(AssetRecord::Instances(stored))
                    && stored@ == instances@
                &&& forall|other: Handle|
                    other.id() != handle.id() ==> final(self).lookup(other) == old(self).lookup(
                        other,
                    )
            },
    {
        Ok(self.insert_record(AssetRecord::Instances(instances)))
    }

    /// Index of the record a handle resolves to, scanning front to back.
    fn find_index(&self, handle: Handle) -> (r: Option<usize>)
        ensures
            r matches Some(i) ==> i < self.records().len() && self.records()[i as int].0 == handle
                && forall|k: int|
                0 <= k < i ==> (#[trigger] self.records()[k]).0.id() != handle.id(),
            r is None ==> forall|k: int|
                0 <= k < self.records().len() ==> (#[trigger] self.records()[k]).0.id()
                    != handle.id(),
    {
        let mut i: usize = 0;
        while i < self.assets.len()
            invariant
                0 <= i <= self.records().len(),
                forall|k: int| 0 <= k < i ==> (#[trigger] self.records()[k]).0.id() != handle.id(),
            decreases self.records().len() - i,
        {
            let (h, _) = &self.assets[i];
            if *h == handle {
                return Some(i);
            }
            proof {
                lemma_handle_eq(self.records()[i as int].0, handle);
            }
            i = i + 1;
        }
        None
    }

    /// Whether the handle resolves at all, and to which kind of record.
    /// This is the runtime check an unverified caller makes before it
    /// resolves a handle.
    fn record_kind_at(&self, handle: Handle) -> (r: Option<&AssetRecord>)
        ensures
            r matches Some(record) ==> self.lookup(handle) == Some(*record),
            r is None ==> self.lookup(handle) is None,
    {
        match self.find_index(handle) {
            Some(i) => {
                proof {
                    lemma_find_record_present(self.records(), handle.id(), i as int);
                }
                Some(&self.assets[i].1)
            },
            None => {
                proof {
                    lemma_find_record_absent(self.records(), handle.id());
                }
                None
            },
        }
    }

    /// Whether the handle resolves to a mesh.
    pub fn contains_mesh(&self, handle: Handle) -> (r: bool)
        ensures
            r == self.has_mesh(handle),
    {
        matches!(self.record_kind_at(handle), Some(AssetRecord::Mesh(_)))
    }

    /// Whether the handle resolves to a texture.
    pub fn contains_texture(&self, handle: Handle) -> (r: bool)
        ensures
            r == self.has_texture(handle),
    {
        matches!(self.record_kind_at(handle), Some(AssetRecord::Texture(_)))
    }

    /// Whether the handle resolves to a camera.
    pub fn contains_camera(&self, handle: Handle) -> (r: bool)
        ensures
            r == self.has_camera(handle),
    {
        matches!(self.record_kind_at(handle), Some(AssetRecord::Camera(_)))
    }

    /// Whether the handle resolves to a pipeline.
    pub fn contains_pipeline(&self, handle: Handle) -> (r: bool)
        ensures
            r == self.has_pipeline(handle),
    {
        matches!(self.record_kind_at(handle), Some(AssetRecord::Pipeline(_)))
    }

    /// Whether the handle resolves to an instance set.
    pub fn contains_instances(&self, handle: Handle) -> (r: bool)
        ensures
            r == self.has_instances(handle),
    {
        matches!(self.record_kind_at(handle), Some(AssetRecord::Instances(_)))
    }

    /// Resolves a mesh handle to the stored mesh. The handle must be one
    /// the bank issued for a mesh.
    pub fn get_mesh_data(&self, handle: Handle) -> (mesh: &Mesh)
        requires
            self.wf(),
            self.has_mesh(handle),
        ensures
            self.lookup(handle) == Some(AssetRecord::Mesh(*mesh)),
            mesh.wf(),
    {
        match self.find_index(handle) {
            Some(i) => {
                proof {
                    lemma_find_record_present(self.records(), handle.id(), i as int);
                }
                match &self.assets[i].1 {
                    AssetRecord::Mesh(mesh) => mesh,
                    _ => unreached(),
                }
            },
            None => {
                proof {
                    lemma_find_record_absent(self.records(), handle.id());
                }
                unreached()
            },
        }
    }

    /// Resolves a texture handle to the stored texture data backing its
    /// bind group.
    pub fn get_texture_bind_group(&self, handle: Handle) -> (texture: &Texture)
        requires
            self.wf(),
            self.has_texture(handle),
        ensures
            self.lookup(handle) == Some(AssetRecord::Texture(*texture)),
            texture.wf(),
    {
        match self.find_index(handle) {
            Some(i) => {
                proof {
                    lemma_find_record_present(self.records(), handle.id(), i as int);
                }
                match &self.assets[i].1 {
                    AssetRecord::Texture(texture) => texture,
                    _ => unreached(),
                }
            },
            None => {
                proof {
                    lemma_find_record_absent(self.records(), handle.id());
                }
                unreached()
            },
        }
    }

    /// Resolves a camera handle to the stored camera backing its uniform
    /// bind group.
    pub fn get_camera_bind_group(&self, handle: Handle) -> (camera: &Camera)
        requires
            self.wf(),
            self.has_camera(handle),
        ensures
            self.lookup(handle) == Some(AssetRecord::Camera(*camera)),
            camera.wf(),
    {
        match self.find_index(handle) {
            Some(i) => {
                proof {
                    lemma_find_record_present(self.records(), handle.id(), i as int);
                }
                match &self.assets[i].1 {
                    AssetRecord::Camera(camera) => camera,
                    _ => unreached(),
                }
            },
            None => {
                proof {
                    lemma_find_record_absent(self.records(), handle.id());
                }
                unreached()
            },
        }
    }

    /// Resolves a pipeline handle to the stored pipeline description.
    pub fn get_pipeline(&self, handle: Handle) -> (pipeline: &RenderPipelineDesc)
        requires
            self.wf(),
            self.has_pipeline(handle),
        ensures
            self.lookup(handle) == Some(AssetRecord::Pipeline(*pipeline)),
            pipeline.shader.wf(),
    {
        match self.find_index(handle) {
            Some(i) => {
                proof {
                    lemma_find_record_present(self.records(), handle.id(), i as int);
                }
                match &self.assets[i].1 {
                    AssetRecord::Pipeline(pipeline) => pipeline,
                    _ => unreached(),
                }
            },
            None => {
                proof {
                    lemma_find_record_absent(self.records(), handle.id());
                }
                unreached()
            },
        }
    }

    /// Resolves an instance-set handle to the stored instances.
    pub fn get_instance_data(&self, handle: Handle) -> (instances: &Vec<Instance>)
        requires
            self.wf(),
            self.has_instances(handle),
        ensures
            self.lookup(handle) == Some(AssetRecord::Instances(*instances)),
            instances@.len() <= u32::MAX,
            forall|i: int| 0 <= i < instances@.len() ==> (#[trigger] instances@[i]).wf(),
    {
        match self.find_index(handle) {
            Some(i) => {
                proof {
                    lemma_find_record_present(self.records(), handle.id(), i as int);
                }
                match &self.assets[i].1 {
                    AssetRecord::Instances(instances) => instances,
                    _ => unreached(),
                }
            },
            None => {
                proof {
                    lemma_find_record_absent(self.records(), handle.id());
                }
                unreached()
            },
        }
    }

    /// Replaces the camera behind an existing handle in place: the
    /// handle keeps resolving, no new handle is minted, and every other
    /// handle resolves as before.
    pub fn update_camera(&mut self, handle: Handle, camera: Camera)
        requires
            old(self).wf(),
            old(self).has_camera(handle),
            camera.wf(),
        ensures
            final(self).wf(),
            final(self).lookup(handle) == Some(AssetRecord::Camera(camera)),
            final(self).next_serial_spec() == old(self).next_serial_spec(),
            final(self).records().len() == old(self).records().len(),
            forall|other: Handle|
                other.id() != handle.id() ==> final(self).lookup(other) == old(self).lookup(
                    other,
                ),
    {
        let ghost s_old = old(self).records();
        match self.find_index(handle) {
            Some(i) => {
                let stored_handle = self.assets[i].0;
                self.assets.set(i, (stored_handle, AssetRecord::Camera(camera)));
                proof {
                    let s_new = self.records();
                    assert(s_new == s_old.update(
                        i as int,
                        (stored_handle, AssetRecord::Camera(camera)),
                    ));
                    lemma_handle_eq(stored_handle, handle);
                    lemma_find_record_present(s_new, handle.id(), i as int);
                    assert forall|other: Handle| other.id() != handle.id() implies find_record(
                        s_new,
                        other.id(),
                    ) == find_record(s_old, other.id()) by {
                        lemma_find_record_update_other(s_old, s_new, i as int, other.id());
                    }
                }
            },
            None => {
                proof {
                    lemma_find_record_absent(s_old, handle.id());
                }
                unreached()
            },
        }
    }
}

/// If no stored serial matches, the search finds nothing.
proof fn lemma_find_record_absent(s: Seq<(Handle, AssetRecord)>, id: u64)
    requires
        forall|k: int| 0 <= k < s.len() ==> (#[trigger] s[k]).0.id() != id,
    ensures
        find_record(s, id) is None,
    decreases s.len(),
{
    if s.len() > 0 {
        lemma_find_record_absent(s.subrange(1, s.len() as int), id);
    }
}

/// If entry `i` matches and no earlier entry does, the search finds
/// entry `i`.
proof fn lemma_find_record_present(s: Seq<(Handle, AssetRecord)>, id: u64, i: int)
    requires
        0 <= i < s.len(),
        s[i].0.id() == id,
        forall|k: int| 0 <= k < i ==> (#[trigger] s[k]).0.id() != id,
    ensures
        find_record(s, id) == Some(s[i].1),
    decreases s.len(),
{
    if i > 0 {
        lemma_find_record_present(s.subrange(1, s.len() as int), id, i - 1);
    }
}

/// Appending an entry with a different serial leaves a search unchanged.
proof fn lemma_find_record_push_other(
    s: Seq<(Handle, AssetRecord)>,
    pair: (Handle, AssetRecord),
    id: u64,
)
    requires
        pair.0.id() != id,
    ensures
        find_record(s.push(pair), id) == find_record(s, id),
    decreases s.len(),
{
    let sp = s.push(pair);
    if s.len() == 0 {
        assert(sp[0] == pair);
        assert(sp.subrange(1, sp.len() as int) =~= s);
        assert(find_record(sp, id) == find_record(sp.subrange(1, sp.len() as int), id));
    } else {
        assert(sp[0] == s[0]);
        assert(sp.subrange(1, sp.len() as int) =~= s.subrange(1, s.len() as int).push(pair));
        lemma_find_record_push_other(s.subrange(1, s.len() as int), pair, id);
        if s[0].0.id() == id {
            assert(find_record(sp, id) == Some(sp[0].1));
            assert(find_record(s, id) == Some(s[0].1));
        } else {
            assert(find_record(sp, id) == find_record(sp.subrange(1, sp.len() as int), id));
            assert(find_record(s, id) == find_record(s.subrange(1, s.len() as int), id));
        }
    }
}

/// Updating one entry without changing its serial leaves a search for
/// any other serial unchanged.
proof fn lemma_find_record_update_other(
    s_old: Seq<(Handle, AssetRecord)>,
    s_new: Seq<(Handle, AssetRecord)>,
    i: int,
    id: u64,
)
    requires
        0 <= i < s_old.len(),
        s_new.len() == s_old.len(),
        s_new[i].0.id() == s_old[i].0.id(),
        id != s_old[i].0.id(),
        forall|k: int| 0 <= k < s_old.len() && k != i ==> s_new[k] == s_old[k],
    ensures
        find_record(s_new, id) == find_record(s_old, id),
    decreases s_old.len(),
{
    if s_old.len() > 0 {
        if i == 0 {
            assert(s_new.subrange(1, s_new.len() as int) =~= s_old.subrange(
                1,
                s_old.len() as int,
            ));
        } else {
            assert(s_new[0] == s_old[0]);
            if s_old[0].0.id() != id {
                lemma_find_record_update_other(
                    s_old.subrange(1, s_old.len() as int),
                    s_new.subrange(1, s_new.len() as int),
                    i - 1,
                    id,
                );
            }
        }
    }
}

/// A found serial is a stored serial.
proof fn lemma_find_record_some_index(s: Seq<(Handle, AssetRecord)>, id: u64)
    requires
        find_record(s, id) is Some,
    ensures
        exists|k: int| 0 <= k < s.len() && (#[trigger] s[k]).0.id() == id,
    decreases s.len(),
{
    if s.len() > 0 && s[0].0.id() != id {
        lemma_find_record_some_index(s.subrange(1, s.len() as int), id);
        let k = choose|k: int|
            0 <= k < s.subrange(1, s.len() as int).len() && (#[trigger] s.subrange(
                1,
                s.len() as int,
            )[k]).0.id() == id;
        assert(s[k + 1].0.id() == id);
    }
}

/// Handle uniqueness: every handle the bank has issued resolves and lies
/// strictly below the serial counter, while each registration issues the
/// handle at the counter and advances it — so over one bank's lifetime
/// all returned handles are pairwise distinct.
pub proof fn lemma_issued_handles_below_serial(bank: AssetsBank, handle: Handle)
    requires
        bank.wf(),
        bank.has_asset(handle),
    ensures
        handle.id() < bank.next_serial_spec(),
{
    lemma_find_record_some_index(bank.records(), handle.id());
}

} // verus!
