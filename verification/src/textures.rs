//! The texture cache of the renderer: which texture references are
//! registered, with what parameters, and which samplers exist.

use vstd::prelude::*;
use std::collections::HashMap;
use crate::mesh::TextureId;

verus! {

broadcast use vstd::std_specs::hash::group_hash_axioms;

/// How a texture is sampled between texels.
#[derive(Clone, Copy, Debug, PartialEq, Eq, Structural)]
pub enum TextureFilter {
    Nearest,
    Linear,
}

/// The filters of a texture, when magnified and when minified.
#[derive(Clone, Copy, Debug, PartialEq, Eq, Structural)]
pub struct TextureOptions {
    pub magnification: TextureFilter,
    pub minification: TextureFilter,
}

/// The parameters that a texture was registered with.
#[derive(Clone, Copy, Debug, PartialEq, Eq, Structural)]
pub struct TextureInfo {
    pub width: u32,
    pub height: u32,
    pub options: TextureOptions,
}

/// The registered textures and the samplers made for them.
pub struct TextureCache {
    managed: HashMap<u64, TextureInfo>,
    user: HashMap<u64, TextureInfo>,
    samplers: Vec<TextureOptions>,
}

/// What a texture cache holds.
pub struct TextureCacheView {
    pub textures: Map<TextureId, TextureInfo>,
    pub samplers: Set<TextureOptions>,
}

impl View for TextureCache {
    type V = TextureCacheView;

    closed spec fn view(&self) -> TextureCacheView {
        TextureCacheView {
            textures: Map::new(
                |id: TextureId|
                    match id {
                        TextureId::Managed(n) => self.managed@.contains_key(n),
                        TextureId::User(n) => self.user@.contains_key(n),
                    },
                |id: TextureId|
                    match id {
                        TextureId::Managed(n) => self.managed@[n],
                        TextureId::User(n) => self.user@[n],
                    },
            ),
            samplers: Set::new(|o: TextureOptions| self.samplers@.contains(o)),
        }
    }
}

impl TextureCache {
    /// A cache without textures or samplers.
    pub fn new() -> (cache: TextureCache)
        ensures
            cache@.textures == Map::<TextureId, TextureInfo>::empty(),
            cache@.samplers == Set::<TextureOptions>::empty(),
    {
        let cache = TextureCache {
            managed: HashMap::new(),
            user: HashMap::new(),
            samplers: Vec::new(),
        };
        assert(cache@.textures =~= Map::<TextureId, TextureInfo>::empty());
        assert(cache@.samplers =~= Set::<TextureOptions>::empty());
        cache
    }

    /// The parameters that a texture was registered with, if it was.
    pub fn get(&self, id: TextureId) -> (info: Option<TextureInfo>)
        ensures
            info == (if self@.textures.contains_key(id) {
                Some(self@.textures[id])
            } else {
                None
            }),
    {
        let found = match id {
            TextureId::Managed(n) => self.managed.get(&n),
            TextureId::User(n) => self.user.get(&n),
        };
        match found {
            Some(info) => Some(*info),
            None => None,
        }
    }

    /// Whether a texture is registered.
    pub fn contains(&self, id: TextureId) -> (found: bool)
        ensures
            found == self@.textures.contains_key(id),
    {
        self.get(id).is_some()
    }

    /// Registers a texture, or replaces what it was registered with.
    pub fn register(&mut self, id: TextureId, info: TextureInfo)
        ensures
            final(self)@.textures == old(self)@.textures.insert(id, info),
            final(self)@.samplers == old(self)@.samplers,
    {
        match id {
            TextureId::Managed(n) => {
                self.managed.insert(n, info);
            },
            TextureId::User(n) => {
                self.user.insert(n, info);
            },
        }
        assert(self@.textures =~= old(self)@.textures.insert(id, info));
    }

    /// Forgets a texture, and says whether it was registered. Samplers are
    /// kept: other textures may use them.
    pub fn free(&mut self, id: TextureId) -> (freed: bool)
        ensures
            freed == old(self)@.textures.contains_key(id),
            final(self)@.textures == old(self)@.textures.remove(id),
            final(self)@.samplers == old(self)@.samplers,
    {
        let removed = match id {
            TextureId::Managed(n) => self.managed.remove(&n),
            TextureId::User(n) => self.user.remove(&n),
        };
        assert(self@.textures =~= old(self)@.textures.remove(id));
        removed.is_some()
    }

    /// Whether a sampler exists for the given filters.
    pub fn has_sampler(&self, options: TextureOptions) -> (found: bool)
        ensures
            found == self@.samplers.contains(options),
    {
        let mut i: usize = 0;
        while i < self.samplers.len()
            invariant
                i <= self.samplers.len(),
                forall|k: int| 0 <= k < i ==> self.samplers@[k] != options,
            decreases self.samplers.len() - i,
        {
            if self.samplers[i] == options {
                return true;
            }
            i += 1;
        }
        false
    }

    /// Records that a sampler exists for the given filters.
    pub fn add_sampler(&mut self, options: TextureOptions)
        ensures
            final(self)@.samplers == old(self)@.samplers.insert(options),
            final(self)@.textures == old(self)@.textures,
    {
        if !self.has_sampler(options) {
            self.samplers.push(options);
            assert forall|o: TextureOptions| self.samplers@.contains(o) <==> (o == options || old(
                self,
            ).samplers@.contains(o)) by {
                if old(self).samplers@.contains(o) {
                    let k = choose|k: int|
                        0 <= k < old(self).samplers@.len() && old(self).samplers@[k] == o;
                    assert(self.samplers@[k] == o);
                }
                if o == options {
                    assert(self.samplers@[self.samplers@.len() - 1] == o);
                }
            }
        }
        assert(self@.samplers =~= old(self)@.samplers.insert(options));
    }
}

/// New content for a texture: a whole image, or a region of one.
#[derive(Clone, Copy, Debug, PartialEq, Eq)]
pub struct ImageDelta {
    /// Width of the image in texels.
    pub width: u32,
    /// Height of the image in texels.
    pub height: u32,
    /// Number of texels that the image data holds.
    pub texels: usize,
    /// Where the image goes in the texture; `None` for a whole texture.
    pub pos: Option<(u32, u32)>,
    pub options: TextureOptions,
}

/// What the device has to do for a texture.
#[derive(Clone, Copy, Debug, PartialEq, Eq)]
pub enum TextureUpdate {
    /// Create the texture and its binding, and a sampler if none exists
    /// for the filters, then write the whole image.
    Create { width: u32, height: u32, options: TextureOptions, new_sampler: bool },
    /// Write the image into the existing texture at `origin`.
    Write { origin: (u32, u32), width: u32, height: u32 },
}

impl ImageDelta {
    /// Whether the image data holds one texel for each place of its size.
    pub open spec fn consistent(self) -> bool {
        self.width * self.height == self.texels
    }

    /// Decides `consistent`.
    pub fn is_consistent(&self) -> (ok: bool)
        ensures
            ok == self.consistent(),
    {
        let w: u64 = self.width as u64;
        let h: u64 = self.height as u64;
        assert(w * h <= 0xffff_ffff * 0xffff_ffff) by (nonlinear_arith)
            requires
                w <= 0xffff_ffff,
                h <= 0xffff_ffff,
        ;
        (w * h) as u128 == self.texels as u128
    }

    /// The parameters that the image registers a texture with.
    pub open spec fn info(self) -> TextureInfo {
        TextureInfo { width: self.width, height: self.height, options: self.options }
    }
}

impl TextureCacheView {
    /// What the device has to do for new content of a texture. A region
    /// needs its texture registered. A whole image is written in place
    /// where the texture is registered with the same parameters; else the
    /// texture is created.
    pub open spec fn update_of(self, id: TextureId, delta: ImageDelta) -> Result<
        TextureUpdate,
        crate::error::RadiantError,
    > {
        match delta.pos {
            Some(origin) => if self.textures.contains_key(id) {
                Ok(TextureUpdate::Write { origin, width: delta.width, height: delta.height })
            } else {
                Err(crate::error::RadiantError::UnregisteredTexture)
            },
            None => if self.textures.contains_key(id) && self.textures[id] == delta.info() {
                Ok(TextureUpdate::Write { origin: (0, 0), width: delta.width, height: delta.height })
            } else {
                Ok(
                    TextureUpdate::Create {
                        width: delta.width,
                        height: delta.height,
                        options: delta.options,
                        new_sampler: !self.samplers.contains(delta.options),
                    },
                )
            },
        }
    }

    /// The cache after the update: a created texture is registered and its
    /// sampler recorded; a write or a failure changes nothing.
    pub open spec fn updated(self, id: TextureId, delta: ImageDelta) -> TextureCacheView {
        match self.update_of(id, delta) {
            Ok(TextureUpdate::Create { .. }) => TextureCacheView {
                textures: self.textures.insert(id, delta.info()),
                samplers: self.samplers.insert(delta.options),
            },
            _ => self,
        }
    }
}

impl TextureCache {
    /// Decides what the device has to do for new content of a texture, and
    /// records what it will have done.
    pub fn update(&mut self, id: TextureId, delta: &ImageDelta) -> (result: Result<
        TextureUpdate,
        crate::error::RadiantError,
    >)
        ensures
            result == old(self)@.update_of(id, *delta),
            final(self)@ == old(self)@.updated(id, *delta),
    {
        let known = self.get(id);
        match delta.pos {
            Some(origin) => {
                if known.is_some() {
                    Ok(TextureUpdate::Write { origin, width: delta.width, height: delta.height })
                } else {
                    Err(crate::error::RadiantError::UnregisteredTexture)
                }
            },
            None => {
                let info = TextureInfo {
                    width: delta.width,
                    height: delta.height,
                    options: delta.options,
                };
                let same = match known {
                    Some(prior) => prior == info,
                    None => false,
                };
                if same {
                    Ok(
                        TextureUpdate::Write {
                            origin: (0, 0),
                            width: delta.width,
                            height: delta.height,
                        },
                    )
                } else {
                    let new_sampler = !self.has_sampler(delta.options);
                    self.add_sampler(delta.options);
                    self.register(id, info);
                    Ok(
                        TextureUpdate::Create {
                            width: delta.width,
                            height: delta.height,
                            options: delta.options,
                            new_sampler,
                        },
                    )
                }
            },
        }
    }
}

} // verus!
