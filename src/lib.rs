pub mod hit;
pub mod integrator;
pub mod material;
pub mod mesh;
pub mod raster;
