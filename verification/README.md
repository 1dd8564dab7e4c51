# trenako

The catalog model of a website for model railway collectors: manufacturers and brands,
catalog items and the values that describe them (delivery dates, epochs, item numbers,
couplings, lengths and their measure units), and the shared values (addresses, contacts,
localized texts, slugs, social profiles, metadata), written in Verus with contracts that
the verifier proves.

## Layout

- `src/common`: the shared values. Decimal numbers are a mantissa and a scale whose
  arithmetic is computed by `rust_decimal`; lengths and measure units convert through it.
  `queries` holds what a query answers once its rows are read.
- `src/catalog`: brands, manufacturers, catalog items and rolling stocks, with the
  commands that create brands, manufacturers and catalog items.
- `src/text.rs`: the character level helpers that the parsers and formatters share.
- `tests`: the tests of the library.
- `app`: the asynchronous plumbing (units of work, repositories, the commands and queries
  that run against a database), which the verifier does not see.

Catalog item requests and rolling stock requests are part of the library: the length
rules of a rolling stock request, the payloads and commands built from the requests, and
the decision that the creation of a catalog item takes once it knows what the database
holds (`catalog_item_creation_command`); `app` reads the database and stores the command.
The categories, power methods and kinds of rolling stock hold the values that this
library knows. Railways and scales appear through their identifiers only. Manufacturer and
brand requests are taken as they are: no field rule is defined for them.

Each parser states what it reads in a specification function, and the proof functions
next to it state the laws that hold between parsing and writing (a written value parses
back to itself).
