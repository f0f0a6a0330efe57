use gentoo_render::game_object::GameObject;
use gentoo_render::game_object::GameObjectRegistry;
use gentoo_render::model::DrawCommand;
use gentoo_render::model::Model;
use gentoo_render::model::Vec2;
use gentoo_render::model::Vec3;
use gentoo_render::model::Vertex;
use gentoo_render::model::assemble_mesh;
use gentoo_render::systems::MAX_LIGHTS;
use gentoo_render::systems::draw_list;
use gentoo_render::systems::lights_within_capacity;
use gentoo_render::systems::update_lights;

#[test]
fn registry_assigns_sequential_ids() {
    let mut registry = GameObjectRegistry::new();
    assert_eq!(registry.len(), 0);
    let a = registry.create_game_object(Some(0), false);
    let b = registry.create_game_object(None, true);
    let c = registry.create_game_object(Some(0), false);
    assert_eq!((a, b, c), (0, 1, 2));
    assert_eq!(registry.len(), 3);
    assert_eq!(
        registry.get(1),
        Some(&GameObject { id: 1, model: None, point_light: true })
    );
    assert_eq!(registry.get(7), None);
    assert!(registry.can_create());
}

#[test]
fn three_entity_scene_fills_exactly_one_light_slot() {
    // Two mesh entities and one light-only entity: the point-light pass
    // must fill exactly one slot and set num_lights to 1.
    let mut registry = GameObjectRegistry::new();
    let mesh_a = registry.create_game_object(Some(0), false);
    let mesh_b = registry.create_game_object(Some(1), false);
    let light = registry.create_game_object(None, true);
    assert!(lights_within_capacity(&registry));
    let update = update_lights(&registry);
    assert_eq!(update.light_ids, vec![light]);
    assert_eq!(update.num_lights, 1);
    assert_eq!(draw_list(&registry), vec![mesh_a, mesh_b]);
}

#[test]
fn light_capacity_is_checked() {
    let mut registry = GameObjectRegistry::new();
    for _ in 0..MAX_LIGHTS {
        registry.create_game_object(None, true);
    }
    assert!(lights_within_capacity(&registry));
    let update = update_lights(&registry);
    assert_eq!(update.num_lights as usize, MAX_LIGHTS);
    registry.create_game_object(None, true);
    assert!(!lights_within_capacity(&registry));
}

#[test]
fn mesh_assembly_reads_the_flat_streams() {
    let positions: Vec<f32> = vec![0.0, 1.0, 2.0, 3.0, 4.0, 5.0];
    let colors: Vec<f32> = vec![0.5, 0.25, 0.125];
    let normals: Vec<f32> = vec![1.0, 0.0, 0.0, 0.0, 1.0, 0.0];
    let uvs: Vec<f32> = vec![0.0, 0.5, 0.5, 1.0];
    let white = Vec3 { x: 1.0f32, y: 1.0, z: 1.0 };
    let vertices = assemble_mesh(&positions, &colors, &normals, &uvs, white);
    assert_eq!(vertices.len(), 2);
    assert_eq!(
        vertices[0],
        Vertex {
            position: Vec3 { x: 0.0, y: 1.0, z: 2.0 },
            color: Vec3 { x: 0.5, y: 0.25, z: 0.125 },
            normal: Vec3 { x: 1.0, y: 0.0, z: 0.0 },
            uv: Vec2 { x: 0.0, y: 0.5 },
        }
    );
    // The color stream ends after the first vertex: the second gets the
    // default white.
    assert_eq!(
        vertices[1],
        Vertex {
            position: Vec3 { x: 3.0, y: 4.0, z: 5.0 },
            color: white,
            normal: Vec3 { x: 0.0, y: 1.0, z: 0.0 },
            uv: Vec2 { x: 0.5, y: 1.0 },
        }
    );
}

#[test]
fn mesh_assembly_with_integer_scalars() {
    let positions: Vec<i64> = vec![10, 11, 12];
    let colors: Vec<i64> = vec![7, 8, 9];
    let normals: Vec<i64> = vec![1, 0, 0];
    let uvs: Vec<i64> = vec![3, 4];
    let fallback = Vec3 { x: -1i64, y: -1, z: -1 };
    let vertices = assemble_mesh(&positions, &colors, &normals, &uvs, fallback);
    assert_eq!(vertices.len(), 1);
    assert_eq!(vertices[0].color, Vec3 { x: 7, y: 8, z: 9 });
    assert_eq!(vertices[0].uv, Vec2 { x: 3, y: 4 });
}

#[test]
fn draw_command_follows_the_index_buffer() {
    let indexed = Model::new(4, Some(12));
    assert!(indexed.has_index_buffer());
    assert_eq!(indexed.draw(), DrawCommand::Indexed { index_count: 12 });
    let direct = Model::new(3, None);
    assert!(!direct.has_index_buffer());
    assert_eq!(direct.draw(), DrawCommand::Direct { vertex_count: 3 });
}
