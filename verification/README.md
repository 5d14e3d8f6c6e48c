# house_query

A browser for second-hand housing listings: it scrapes listing pages city by city, stores the
listings in a per-city database and shows them, sorted, in a window with an overview of all
stored data.

`src/` is the verified library (Verus): reading listing pages (`page`, `house`, `pattern`),
text handling (`text`), the database queries and the data overview (`query`), city names in
pinyin (`romanize`), the table cells (`display`), update times (`timefmt`) and the window's
state machine (`app_state`). `app/` is the program around it: network, disk, database and
window.
