# punto_venta

The back end of a point of sale for a shop: users and their ranks, suppliers, the
catalogue (products sold by the unit, by weight, and departments), sales with their
payments, the till, and the SQLite database that keeps them.

- `src/` is the verified library. It holds the rules of the point of sale and every
  text the program builds: the SQL statements and the values bound to them, the shared
  forms of users, suppliers and barcodes, the reading of numbers typed at the till, the
  rules for accepting a payment, the sales put aside, and the logic of the forms of the
  web view. Each public function states its result in its contract, and the laws that
  relate several functions are proof functions beside them.
- `app/` is the program around it: the database, the files the catalogue is loaded from,
  the amounts of money (floating-point numbers) and the commands of the user interface.
- `tests/` runs the library on concrete values.
