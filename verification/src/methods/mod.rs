pub mod moonsighting;
