pub mod set_params;
