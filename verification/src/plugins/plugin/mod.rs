pub mod plugin_1j_2j_ftx;
