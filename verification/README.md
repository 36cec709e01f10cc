# peak-valley-price

A command-line tool for peak/valley electricity tariffs (Wuxi, Jiangsu by
default), written as a Verus-verified library with a thin program around it.

- `src/` — the verified library: regions and usage types, tariff periods and
  daily schedules, the configuration model and built-in defaults, the State
  Grid provider's logic (request address, reading the API answer, the local
  fallback tariff), the test-data provider, the schedule cache, the price
  service with its advice text, and the texts of the commands. Prices are
  integers in ten-thousandths of a yuan per kWh.
- `app/` — the program: argument parsing (clap), the TOML configuration file,
  HTTP requests to the API (reqwest on tokio), and printing.
- `tests/` — tests of the library.
