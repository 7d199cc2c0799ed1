//! Items of the world: what can be placed in it, and what can be rendered.

use super::proxy::RenderProxy;
use super::transform::{Rotation3, Scale4, Vector4};
use vstd::prelude::*;

verus! {

/// Visibility state of a primitive.
#[derive(Debug, Clone, Copy, PartialEq, Eq, Structural)]
pub enum EPrimitiveVisibility {
    /// Drawn, and seen by other primitives.
    Visible,
    /// Drawn, without effect on other primitives.
    SelfOnly,
    /// Not drawn.
    Invisible,
    /// Reserved.
    Channel0,
    Channel1,
    Channel2,
    Channel3,
}

impl Default for EPrimitiveVisibility {
    fn default() -> (v: Self)
        ensures
            v == EPrimitiveVisibility::Visible,
    {
        EPrimitiveVisibility::Visible
    }
}

/// Which part of a transform a mutation touched.
#[derive(Debug, Clone, Copy, PartialEq, Eq, Structural)]
pub enum ETransformChangeType {
    Position,
    Rotation,
    Scale,
    All,
}

impl Default for ETransformChangeType {
    fn default() -> (t: Self)
        ensures
            t == ETransformChangeType::All,
    {
        ETransformChangeType::All
    }
}

/// An item that can be placed in the world. It is told of every change of
/// the transform that it is attached to.
pub trait Spawnable: Default {
    /// Whether `after` is what the item may be once it was told of a change
    /// of the given kind. An item that says nothing of itself may be
    /// anything then.
    open spec fn notified(&self, transform_type: ETransformChangeType, after: &Self) -> bool {
        true
    }

    fn on_transform_changed(&mut self, transform_type: ETransformChangeType)
        ensures
            old(self).notified(transform_type, final(self)),
    ;
}

/// An item that can be rendered. All entities of one primitive type share one
/// render proxy, which batches the render data of the type.
pub trait Primitive {
    /// The proxy that the primitive type's render data is published into.
    type Proxy: RenderProxy;
}

/// The transform of an item in the world, with the item.
#[derive(Debug, Clone, Copy, PartialEq)]
pub struct SceneComponent<T: Spawnable> {
    /// Position in world space.
    position: Vector4,
    /// Rotation in world space.
    rotation: Rotation3,
    /// Scale in world space.
    scale: Scale4,
    /// The item that this component is attached to.
    spawnable_data: T,
}

impl<T: Spawnable> Default for SceneComponent<T> {
    /// At the origin, not rotated, not scaled, with the item as its own
    /// default makes it.
    fn default() -> (component: Self)
        ensures
            component.position() == Vector4::spec_origin(),
            component.rotation() == Rotation3::spec_identity(),
            component.scale() == Scale4::spec_identity(),
            call_ensures(T::default, (), component.spawnable_data()),
    {
        SceneComponent {
            position: Vector4::origin(),
            rotation: Rotation3::identity(),
            scale: Scale4::identity(),
            spawnable_data: T::default(),
        }
    }
}

impl<T: Spawnable> SceneComponent<T> {
    pub closed spec fn position(&self) -> Vector4 {
        self.position
    }

    pub closed spec fn rotation(&self) -> Rotation3 {
        self.rotation
    }

    pub closed spec fn scale(&self) -> Scale4 {
        self.scale
    }

    pub closed spec fn spawnable_data(&self) -> T {
        self.spawnable_data
    }

    #[verifier::when_used_as_spec(position)]
    pub fn get_position(&self) -> (position: Vector4)
        ensures
            position == self.position(),
    {
        self.position
    }

    #[verifier::when_used_as_spec(rotation)]
    pub fn get_rotation(&self) -> (rotation: Rotation3)
        ensures
            rotation == self.rotation(),
    {
        self.rotation
    }

    #[verifier::when_used_as_spec(scale)]
    pub fn get_scale(&self) -> (scale: Scale4)
        ensures
            scale == self.scale(),
    {
        self.scale
    }

    /// The item that the component is attached to.
    pub fn data(&self) -> (data: &T)
        ensures
            *data == self.spawnable_data(),
    {
        &self.spawnable_data
    }

    /// The item that the component is attached to, to change it. The
    /// transform stays as it is.
    pub fn data_mut(&mut self) -> (data: &mut T)
        ensures
            *data == old(self).spawnable_data(),
            final(self).spawnable_data() == *final(data),
            final(self).position() == old(self).position(),
            final(self).rotation() == old(self).rotation(),
            final(self).scale() == old(self).scale(),
    {
        &mut self.spawnable_data
    }

    pub fn set_position(&mut self, position: Vector4)
        ensures
            final(self).position() == position,
            final(self).rotation() == old(self).rotation(),
            final(self).scale() == old(self).scale(),
            old(self).spawnable_data().notified(ETransformChangeType::Position, &final(self).spawnable_data()),
    {
        self.position = position;
        self.on_transform_changed(ETransformChangeType::Position);
    }

    pub fn set_rotation(&mut self, rotation: Rotation3)
        ensures
            final(self).position() == old(self).position(),
            final(self).rotation() == rotation,
            final(self).scale() == old(self).scale(),
            old(self).spawnable_data().notified(ETransformChangeType::Rotation, &final(self).spawnable_data()),
    {
        self.rotation = rotation;
        self.on_transform_changed(ETransformChangeType::Rotation);
    }

    pub fn set_scale(&mut self, scale: Scale4)
        ensures
            final(self).position() == old(self).position(),
            final(self).rotation() == old(self).rotation(),
            final(self).scale() == scale,
            old(self).spawnable_data().notified(ETransformChangeType::Scale, &final(self).spawnable_data()),
    {
        self.scale = scale;
        self.on_transform_changed(ETransformChangeType::Scale);
    }

    /// Tells the item of a change of its transform.
    pub fn on_transform_changed(&mut self, transform_type: ETransformChangeType)
        ensures
            final(self).position() == old(self).position(),
            final(self).rotation() == old(self).rotation(),
            final(self).scale() == old(self).scale(),
            old(self).spawnable_data().notified(transform_type, &final(self).spawnable_data()),
    {
        self.spawnable_data.on_transform_changed(transform_type)
    }
}

/// A renderable item in the world: a scene component, with what the
/// renderer needs to know of it.
#[derive(Debug, Clone, Copy, PartialEq)]
pub struct PrimitiveComponent<T: Primitive, U: Spawnable> {
    scene_component: SceneComponent<U>,
    visibility: EPrimitiveVisibility,
    primitive_data: T,
}

impl<T: Primitive + Default, U: Spawnable> Default for PrimitiveComponent<T, U> {
    /// Visible, with the default scene component.
    fn default() -> (component: Self)
        ensures
            component.spec_visibility() == EPrimitiveVisibility::Visible,
            component.scene().position() == Vector4::spec_origin(),
            component.scene().rotation() == Rotation3::spec_identity(),
            component.scene().scale() == Scale4::spec_identity(),
            call_ensures(U::default, (), component.scene().spawnable_data()),
            call_ensures(T::default, (), component.primitive_data()),
    {
        PrimitiveComponent {
            scene_component: SceneComponent::default(),
            visibility: EPrimitiveVisibility::Visible,
            primitive_data: T::default(),
        }
    }
}

impl<T: Primitive, U: Spawnable> std::ops::Deref for PrimitiveComponent<T, U> {
    type Target = SceneComponent<U>;

    fn deref(&self) -> (scene: &SceneComponent<U>)
        ensures
            *scene == self.scene(),
    {
        &self.scene_component
    }
}

impl<T: Primitive, U: Spawnable> std::ops::DerefMut for PrimitiveComponent<T, U> {
    fn deref_mut(&mut self) -> (scene: &mut SceneComponent<U>)
        ensures
            *scene == old(self).scene(),
            final(self).scene() == *final(scene),
            final(self).spec_visibility() == old(self).spec_visibility(),
            final(self).primitive_data() == old(self).primitive_data(),
    {
        &mut self.scene_component
    }
}

impl<T: Primitive, U: Spawnable> PrimitiveComponent<T, U> {
    pub closed spec fn scene(&self) -> SceneComponent<U> {
        self.scene_component
    }

    pub closed spec fn spec_visibility(&self) -> EPrimitiveVisibility {
        self.visibility
    }

    pub closed spec fn primitive_data(&self) -> T {
        self.primitive_data
    }

    #[verifier::when_used_as_spec(spec_visibility)]
    pub fn visibility(&self) -> (visibility: EPrimitiveVisibility)
        ensures
            visibility == self.spec_visibility(),
    {
        self.visibility
    }

    pub fn set_visibility(&mut self, visibility: EPrimitiveVisibility)
        ensures
            final(self).spec_visibility() == visibility,
            final(self).scene() == old(self).scene(),
            final(self).primitive_data() == old(self).primitive_data(),
    {
        self.visibility = visibility;
    }
}

} // verus!
