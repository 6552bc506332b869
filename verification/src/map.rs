use vstd::prelude::*;
use crate::gameplay_attributes::{CollisionAttributes, CollisionAttributesId};
use crate::gameplay_modes::Modes;
use crate::model::{Mesh, MeshId, Model, ModelId, RenderConfig, RenderId, TextureId};

verus! {

/// A whole map: the modes, and the tables of collision attributes, meshes, models, textures
/// and render configurations, each found by the number of its id.
pub struct CompleteMap {
    pub modes: Modes,
    pub attributes: Vec<CollisionAttributes>,
    pub meshes: Vec<Mesh>,
    pub models: Vec<Model>,
    pub textures: Vec<Vec<u8>>,
    pub render_configs: Vec<RenderConfig>,
}

impl CompleteMap {
    /// The collision attributes `id`; none where the map has none with that id.
    pub fn get_attributes(&self, id: CollisionAttributesId) -> (r: Option<&CollisionAttributes>)
        ensures
            id.0 < self.attributes.len() ==> r == Some(&self.attributes[id.0 as int]),
            id.0 >= self.attributes.len() ==> r is None,
    {
        let index = id.0 as usize;
        if index < self.attributes.len() {
            Some(&self.attributes[index])
        } else {
            None
        }
    }

    /// The mesh `id`; none where the map has none with that id.
    pub fn get_mesh(&self, id: MeshId) -> (r: Option<&Mesh>)
        ensures
            id.0 < self.meshes.len() ==> r == Some(&self.meshes[id.0 as int]),
            id.0 >= self.meshes.len() ==> r is None,
    {
        let index = id.0 as usize;
        if index < self.meshes.len() {
            Some(&self.meshes[index])
        } else {
            None
        }
    }

    /// The model `id`; none where the map has none with that id.
    pub fn get_model(&self, id: ModelId) -> (r: Option<&Model>)
        ensures
            id.0 < self.models.len() ==> r == Some(&self.models[id.0 as int]),
            id.0 >= self.models.len() ==> r is None,
    {
        let index = id.0 as usize;
        if index < self.models.len() {
            Some(&self.models[index])
        } else {
            None
        }
    }

    /// The bytes of the texture `id`; none where the map has none with that id.
    pub fn get_texture(&self, id: TextureId) -> (r: Option<&Vec<u8>>)
        ensures
            id.0 < self.textures.len() ==> r == Some(&self.textures[id.0 as int]),
            id.0 >= self.textures.len() ==> r is None,
    {
        let index = id.0 as usize;
        if index < self.textures.len() {
            Some(&self.textures[index])
        } else {
            None
        }
    }

    /// The render configuration `id`; none where the map has none with that id.
    pub fn get_render_config(&self, id: RenderId) -> (r: Option<&RenderConfig>)
        ensures
            id.0 < self.render_configs.len() ==> r == Some(&self.render_configs[id.0 as int]),
            id.0 >= self.render_configs.len() ==> r is None,
    {
        let index = id.0 as usize;
        if index < self.render_configs.len() {
            Some(&self.render_configs[index])
        } else {
            None
        }
    }

    /// The collision attributes of the model `id`: none where the map has no such model, or
    /// none with the id that the model names.
    pub fn get_model_attributes(&self, id: ModelId) -> (r: Option<&CollisionAttributes>)
        ensures
            r == (if id.0 < self.models.len() && self.models[id.0 as int].attributes.0
                < self.attributes.len() {
                Some(&self.attributes[self.models[id.0 as int].attributes.0 as int])
            } else {
                None
            }),
    {
        match self.get_model(id) {
            Some(model) => self.get_attributes(model.attributes),
            None => None,
        }
    }
}

} // verus!
