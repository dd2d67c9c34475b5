[package]
name = "stem_slot"
version = "0.1.0"
edition = "2021"
publish = false

[dependencies]
akima_spline = "*"
approx = "*"
cart_lin = "*"
compare_variables = "*"
deserialize_untagged_verbose_error = "*"
dyn-clone = "*"
dyn_quantity = "*"
gauss-quad = "*"
lazy_static = "*"
nalgebra = "*"
num = "*"
planar_geo = "*"
rayon = "*"
serde = { version = "*", features = ["derive"] }
stem_material = "*"
typetag = "*"
uom = "*"

[dev-dependencies]
indoc = "*"
serde_yaml = "*"
