use tamarindo_engine::assets_bank::AssetsBank;
use tamarindo_engine::error::EngineError;
use tamarindo_engine::resources::Mesh;

fn words(n: usize) -> Vec<u32> {
    vec![0u32; n]
}

#[test]
fn stride_invariant_rejects_twelve_floats() {
    let mut bank = AssetsBank::new();
    let result = bank.register_mesh(words(12), vec![0u16, 1]);
    assert_eq!(result, Err(EngineError::InvalidVertexData));
}

#[test]
fn stride_invariant_accepts_fifteen_floats() {
    let mut bank = AssetsBank::new();
    let handle = bank.register_mesh(words(15), vec![0u16, 1, 2]).unwrap();
    let mesh = bank.get_mesh_data(handle);
    assert_eq!(mesh.vertex_words.len(), 15);
    assert_eq!(mesh.vertex_words.len() / 5, 3);
    assert_eq!(mesh.index_data, vec![0u16, 1, 2]);
}

#[test]
fn stride_invariant_rejects_empty_vertex_data() {
    let mut bank = AssetsBank::new();
    let result = bank.register_mesh(Vec::new(), Vec::new());
    assert_eq!(result, Err(EngineError::InvalidVertexData));
}

#[test]
fn index_out_of_range_rejected() {
    let mut bank = AssetsBank::new();
    // Five words form exactly one vertex record, so index 1 is invalid.
    let result = bank.register_mesh(words(5), vec![0u16, 1, 0]);
    assert_eq!(result, Err(EngineError::InvalidVertexData));
}

#[test]
fn mesh_new_validates_directly() {
    assert!(Mesh::new(words(10), vec![0u16, 1]).is_ok());
    assert_eq!(
        Mesh::new(words(10), vec![2u16]),
        Err(EngineError::InvalidVertexData)
    );
}

#[test]
fn unit_square_matches_float_bit_patterns() {
    let square = Mesh::new_square();
    assert_eq!(square.vertex_words.len(), 20);
    assert_eq!(square.index_data, vec![0u16, 1, 2, 2, 3, 0]);
    assert_eq!(square.vertex_words[0], 1.0f32.to_bits());
    assert_eq!(square.vertex_words[5], (-1.0f32).to_bits());
    assert_eq!(square.vertex_words[2], 0.0f32.to_bits());
    let floats: Vec<f32> = square.vertex_words.iter().map(|w| f32::from_bits(*w)).collect();
    assert_eq!(floats[0..5], [1.0, 1.0, 0.0, 1.0, 0.0]);
    assert_eq!(floats[15..20], [1.0, -1.0, 0.0, 1.0, 1.0]);
}

#[test]
fn num_indices_counts_index_data() {
    let mesh = Mesh::new(words(20), vec![0u16, 1, 2, 2, 3, 0]).unwrap();
    assert_eq!(mesh.num_indices(), 6);
}
